//! What holds of a gateway session over any run of events.
use crate::channels::gateway::{
    action_on, error_text, handed_on, heartbeat_document, identify_document, is_called, is_for_bot,
    is_mentioned, new_session, session_after, ActionView, ConnectionState, ErrorView, EventView,
    Frame, GatewayAction, GatewayError, GatewayEvent, GatewayPayload, Meaning, MessageCreateData,
    MessageCreateView, PayloadView, Sent, SessionView, DEFAULT_HEARTBEAT_MS,
};
use crate::channels::mentions::{
    prefix_stripped, starts_with_name, text_behind_mention_is_left,
};
use crate::json::{json_text, JsonView};
use crate::messages::Timestamp;
use crate::text::{decimal, trimmed, without};
use crate::text_laws::{number_is_read_back, value_of};
use vstd::prelude::*;

verus! {

/// What a session knows after a run of events.
pub open spec fn session_over(session: SessionView, events: Seq<EventView>) -> SessionView
    decreases events.len(),
{
    if events.len() == 0 {
        session
    } else {
        session_after(session_over(session, events.drop_last()), events.last())
    }
}

/// The number of the last payload that had one.
pub open spec fn last_sequence(events: Seq<EventView>) -> Option<u64>
    decreases events.len(),
{
    if events.len() == 0 {
        None
    } else {
        match events.last() {
            EventView::Payload { payload } if payload.sequence is Some => payload.sequence,
            _ => last_sequence(events.drop_last()),
        }
    }
}

/// The interval of the last greeting.
pub open spec fn last_interval(events: Seq<EventView>) -> u64
    decreases events.len(),
{
    if events.len() == 0 {
        DEFAULT_HEARTBEAT_MS
    } else {
        match events.last() {
            EventView::Payload { payload } => match payload.meaning {
                Meaning::Hello { heartbeat_interval } => heartbeat_interval,
                _ => last_interval(events.drop_last()),
            },
            _ => last_interval(events.drop_last()),
        }
    }
}

/// Whether an event tells that the bot is logged in.
pub open spec fn is_ready(event: EventView) -> bool {
    event matches EventView::Payload { payload } && payload.meaning is Ready
}

/// Whether an event tells that the credentials were sent.
pub open spec fn is_identified(event: EventView) -> bool {
    event == (EventView::SendDone { sent: Sent::Identify, failure: None })
}

/// The session knows the last number that came and the last interval that was
/// told, and keeps its credentials and its conversation.
pub proof fn session_follows_server(token: Seq<char>, channel: Seq<char>, events: Seq<EventView>)
    ensures
        ({
            let session = session_over(new_session(token, channel), events);
            &&& session.sequence == last_sequence(events)
            &&& session.heartbeat_interval == last_interval(events)
            &&& session.token == token
            &&& session.target_channel == channel
        }),
    decreases events.len(),
{
    if events.len() > 0 {
        session_follows_server(token, channel, events.drop_last());
    }
}

/// Every heartbeat carries the number of the last payload that had one, the
/// payload that asks for the heartbeat among them.
pub proof fn heartbeats_carry_last_sequence(
    token: Seq<char>,
    channel: Seq<char>,
    events: Seq<EventView>,
    event: EventView,
    now: Timestamp,
)
    ensures
        action_on(session_over(new_session(token, channel), events), event, now) matches
            ActionView::SendHeartbeat { text, .. } ==> text == json_text(
            heartbeat_document(last_sequence(events.push(event))),
        ),
{
    session_follows_server(token, channel, events);
    session_follows_server(token, channel, events.push(event));
    assert(events.push(event).drop_last() =~= events);
}

/// A heartbeat that was sent sets the next one's time by the interval that was
/// told last; a heartbeat that came due and could not be sent ends the
/// session; one that was asked for and could not be sent does not.
pub proof fn heartbeats_keep_the_interval(
    token: Seq<char>,
    channel: Seq<char>,
    events: Seq<EventView>,
    now: Timestamp,
)
    ensures
        ({
            let session = session_over(new_session(token, channel), events);
            &&& forall|sent: Sent|
                sent != Sent::Identify ==> #[trigger] action_on(
                    session,
                    EventView::SendDone { sent, failure: None },
                    now,
                ) == (ActionView::HeartbeatIn { ms: last_interval(events) })
            &&& forall|detail: Seq<char>| #[trigger]
                action_on(
                    session,
                    EventView::SendDone { sent: Sent::DueHeartbeat, failure: Some(detail) },
                    now,
                ) is Stop
            &&& forall|detail: Seq<char>| #[trigger]
                action_on(
                    session,
                    EventView::SendDone { sent: Sent::RequestedHeartbeat, failure: Some(detail) },
                    now,
                ) is Wait
        }),
{
    session_follows_server(token, channel, events);
}

/// A connected session knows the bot; a session knows the bot exactly when the
/// server has said who it is; and it knows the id when it knows the name.
pub proof fn bot_is_known_once_ready(token: Seq<char>, channel: Seq<char>, events: Seq<EventView>)
    ensures
        ({
            let session = session_over(new_session(token, channel), events);
            let ready = exists|i: int| 0 <= i < events.len() && is_ready(#[trigger] events[i]);
            &&& session.bot_user_id is Some <==> ready
            &&& session.bot_username is Some <==> ready
            &&& session.state == ConnectionState::Connected ==> ready
        }),
    decreases events.len(),
{
    if events.len() > 0 {
        let earlier = events.drop_last();
        bot_is_known_once_ready(token, channel, earlier);
        if exists|i: int| 0 <= i < events.len() && is_ready(#[trigger] events[i]) {
            let i = choose|i: int| 0 <= i < events.len() && is_ready(#[trigger] events[i]);
            if i < earlier.len() {
                assert(is_ready(earlier[i]));
            }
        }
    }
}

/// No heartbeat comes due in earnest before the credentials were sent or the
/// bot is logged in, and from then on each one does.
pub proof fn heartbeats_wait_for_greeting(
    token: Seq<char>,
    channel: Seq<char>,
    events: Seq<EventView>,
    now: Timestamp,
)
    ensures
        action_on(
            session_over(new_session(token, channel), events),
            EventView::HeartbeatDue,
            now,
        ) is SendHeartbeat <==> exists|i: int|
            0 <= i < events.len() && (is_identified(#[trigger] events[i]) || is_ready(events[i])),
    decreases events.len(),
{
    if events.len() > 0 {
        let earlier = events.drop_last();
        heartbeats_wait_for_greeting(token, channel, earlier, now);
        if exists|i: int|
            0 <= i < events.len() && (is_identified(#[trigger] events[i]) || is_ready(events[i])) {
            let i = choose|i: int|
                0 <= i < events.len() && (is_identified(#[trigger] events[i]) || is_ready(
                    events[i],
                ));
            if i < earlier.len() {
                assert(is_identified(earlier[i]) || is_ready(earlier[i]));
            }
        }
    }
}

/// What is handed on is exactly what a human wrote to the bot in the session's
/// conversation: never before the bot is logged in, never from a bot, never
/// from elsewhere.
pub proof fn only_messages_to_bot_are_delivered(
    token: Seq<char>,
    channel: Seq<char>,
    events: Seq<EventView>,
    event: EventView,
    now: Timestamp,
)
    ensures
        ({
            let session = session_over(new_session(token, channel), events);
            action_on(session, event, now) matches ActionView::Deliver { message: delivered } ==> {
                &&& event matches EventView::Payload { payload }
                &&& payload.meaning matches Meaning::Message { message }
                &&& !message.author_is_bot
                &&& message.channel_id == channel
                &&& is_mentioned(session, message) || is_called(session, message)
                &&& exists|i: int| 0 <= i < events.len() && is_ready(#[trigger] events[i])
                &&& delivered.conversation_id == channel
                &&& delivered.user_id == message.author_id
                &&& delivered.message_id == message.id
                &&& delivered.channel_id == "discord"@
                &&& delivered.timestamp == now
            }
        }),
{
    session_follows_server(token, channel, events);
    bot_is_known_once_ready(token, channel, events);
}

/// Every message that a human writes to the bot in the session's conversation
/// is handed on.
pub proof fn messages_to_bot_are_delivered(session: SessionView, event: EventView, now: Timestamp)
    ensures
        event matches EventView::Payload { payload } ==> (payload.meaning matches
            Meaning::Message { message } ==> (is_for_bot(session, message) ==> action_on(
            session,
            event,
            now,
        ) == (ActionView::Deliver { message: handed_on(session, message, now) }))),
{
}

/// Whether an event ends a session.
pub open spec fn ends_session(event: EventView) -> bool {
    match event {
        EventView::Shutdown => true,
        EventView::Closed => true,
        EventView::Failed { .. } => true,
        EventView::Ended => true,
        EventView::Payload { payload } => payload.meaning is InvalidSession
            || payload.meaning is ReconnectRequest,
        EventView::SendDone { sent, failure } => failure is Some && sent
            != Sent::RequestedHeartbeat,
        _ => false,
    }
}

/// Whether a session ends depends on the event alone; it ends without an error
/// on shutdown and when the server closes the connection, and only then.
pub proof fn session_end_is_told_by_event(session: SessionView, event: EventView, now: Timestamp)
    ensures
        ends_session(event) <==> action_on(session, event, now) is Close || action_on(
            session,
            event,
            now,
        ) is Stop,
        event is Shutdown || event is Closed <==> action_on(session, event, now) is Close
            || action_on(session, event, now) == (ActionView::Stop { failure: None }),
{
}

/// Once a greeting was answered, the session does not wait for one again.
pub proof fn greeting_is_not_awaited_twice(session: SessionView, event: EventView)
    requires
        session.state != ConnectionState::WaitingForHello,
    ensures
        session_after(session, event).state != ConnectionState::WaitingForHello,
{
}

/// Whether an event means anything to a session. A text that cannot be read, a
/// pong, any other frame, and a payload without a number that asks for nothing
/// and tells nothing do not.
pub open spec fn has_meaning(event: EventView) -> bool {
    match event {
        EventView::Ignored => false,
        EventView::Payload { payload } => !(payload.meaning is Nothing) || payload.sequence is Some,
        _ => true,
    }
}

/// The events of a run, without their times.
pub open spec fn events_of(run: Seq<(EventView, Timestamp)>) -> Seq<EventView> {
    Seq::new(run.len(), |i: int| run[i].0)
}

/// What is to be done over a run of events, each with its time.
pub open spec fn actions_over(session: SessionView, run: Seq<(EventView, Timestamp)>) -> Seq<
    ActionView,
>
    decreases run.len(),
{
    if run.len() == 0 {
        Seq::empty()
    } else {
        actions_over(session, run.drop_last()).push(
            action_on(
                session_over(session, events_of(run.drop_last())),
                run.last().0,
                run.last().1,
            ),
        )
    }
}

/// A run without the events that mean nothing.
pub open spec fn meaningful(run: Seq<(EventView, Timestamp)>) -> Seq<(EventView, Timestamp)> {
    run.filter(|timed: (EventView, Timestamp)| has_meaning(timed.0))
}

/// Actions without those that are only to wait.
pub open spec fn deeds(actions: Seq<ActionView>) -> Seq<ActionView> {
    actions.filter(|action: ActionView| !(action is Wait))
}

/// An event that means nothing is answered by waiting and changes nothing.
pub proof fn event_without_meaning_is_ignored(
    session: SessionView,
    event: EventView,
    now: Timestamp,
)
    requires
        !has_meaning(event),
    ensures
        session_after(session, event) == session,
        action_on(session, event, now) == ActionView::Wait,
{
}

/// Events that mean nothing, wherever they come in a run, make no difference to
/// what the session knows in the end, nor to what is done.
pub proof fn events_without_meaning_make_no_difference(
    session: SessionView,
    run: Seq<(EventView, Timestamp)>,
)
    ensures
        session_over(session, events_of(run)) == session_over(session, events_of(meaningful(run))),
        deeds(actions_over(session, run)) == deeds(actions_over(session, meaningful(run))),
    decreases run.len(),
{
    reveal(Seq::filter);
    if run.len() > 0 {
        let earlier = run.drop_last();
        let (event, now) = run.last();
        events_without_meaning_make_no_difference(session, earlier);
        assert(events_of(run).drop_last() =~= events_of(earlier));
        let before = session_over(session, events_of(earlier));
        let actions = actions_over(session, earlier);
        let action = action_on(before, event, now);
        lemma_deeds_push(actions, action);
        if has_meaning(event) {
            let kept = meaningful(earlier);
            assert(meaningful(run) =~= kept.push(run.last()));
            assert(kept.push(run.last()).drop_last() =~= kept);
            assert(events_of(meaningful(run)).drop_last() =~= events_of(kept));
            lemma_deeds_push(actions_over(session, kept), action);
        } else {
            event_without_meaning_is_ignored(before, event, now);
            assert(meaningful(run) =~= meaningful(earlier));
        }
    }
}

/// One more action is one more deed, unless it is to wait.
proof fn lemma_deeds_push(actions: Seq<ActionView>, action: ActionView)
    ensures
        deeds(actions.push(action)) == if action is Wait {
            deeds(actions)
        } else {
            deeds(actions).push(action)
        },
{
    reveal(Seq::filter);
    assert(actions.push(action).drop_last() =~= actions);
}

/// The event that a message was written, with the number of its payload.
pub open spec fn written(message: MessageCreateView, sequence: Option<u64>) -> EventView {
    EventView::Payload { payload: PayloadView { meaning: Meaning::Message { message }, sequence } }
}

/// Whether a message mentions a user, among however many.
pub open spec fn names_user(message: MessageCreateView, id: Seq<char>) -> bool {
    exists|i: int| 0 <= i < message.mentioned.len() && #[trigger] message.mentioned[i] == id
}

/// A message is handed on exactly when a human wrote it, in the session's
/// conversation, and it starts with the bot's name or mentions the bot; on any
/// other message nothing is done.
pub proof fn message_is_delivered_if_addressed(
    session: SessionView,
    message: MessageCreateView,
    sequence: Option<u64>,
    now: Timestamp,
)
    ensures
        ({
            let action = action_on(session, written(message, sequence), now);
            let called = session.bot_username matches Some(name) && starts_with_name(
                message.content,
                name,
            );
            let mentioned = session.bot_user_id matches Some(id) && names_user(message, id);
            &&& action is Deliver <==> message.channel_id == session.target_channel
                && !message.author_is_bot && (called || mentioned)
            &&& !(action is Deliver) ==> action is Wait
        }),
{
    if let Some(id) = session.bot_user_id {
        if names_user(message, id) {
            let i = choose|i: int|
                0 <= i < message.mentioned.len() && #[trigger] message.mentioned[i] == id;
            assert(message.mentioned[i] == id);
        }
    }
}

/// What is handed on of a message tells who wrote it, where, and when it came.
pub proof fn delivered_message_tells_its_origin(
    session: SessionView,
    message: MessageCreateView,
    sequence: Option<u64>,
    now: Timestamp,
)
    ensures
        action_on(session, written(message, sequence), now) matches ActionView::Deliver {
            message: delivered,
        } ==> {
            &&& delivered.message_id == message.id
            &&& delivered.channel_id == "discord"@
            &&& delivered.user_id == message.author_id
            &&& delivered.conversation_id == message.channel_id
            &&& delivered.timestamp == now
            &&& delivered.metadata == JsonView::Null
        },
{
}

/// A message that starts with the bot's name is handed on without that name,
/// whoever it mentions besides.
pub proof fn name_is_taken_out(
    session: SessionView,
    message: MessageCreateView,
    sequence: Option<u64>,
    now: Timestamp,
    name: Seq<char>,
)
    requires
        message.channel_id == session.target_channel,
        !message.author_is_bot,
        session.bot_username == Some(name),
        starts_with_name(message.content, name),
    ensures
        action_on(session, written(message, sequence), now) matches ActionView::Deliver {
            message: delivered,
        } && delivered.text == prefix_stripped(message.content, name),
{
}

/// A message that mentions the bot, and does not start with its name, is handed
/// on without the mentions of the bot in either form, however many users it
/// mentions, and without the white space around the rest.
pub proof fn mentions_are_taken_out(
    session: SessionView,
    message: MessageCreateView,
    sequence: Option<u64>,
    now: Timestamp,
    id: Seq<char>,
)
    requires
        message.channel_id == session.target_channel,
        !message.author_is_bot,
        session.bot_user_id == Some(id),
        names_user(message, id),
        session.bot_username matches Some(name) ==> !starts_with_name(message.content, name),
    ensures
        action_on(session, written(message, sequence), now) matches ActionView::Deliver {
            message: delivered,
        } && delivered.text == trimmed(
            without(without(message.content, "<@"@ + id + ">"@), "<@!"@ + id + ">"@),
        ),
{
    let i = choose|i: int|
        0 <= i < message.mentioned.len() && #[trigger] message.mentioned[i] == id;
    assert(message.mentioned[i] == id);
}

/// A message that is a mention of the bot and text without mentions is handed
/// on as that text, without the white space around it.
pub proof fn text_behind_mention_is_delivered(
    session: SessionView,
    message: MessageCreateView,
    sequence: Option<u64>,
    now: Timestamp,
    id: Seq<char>,
    rest: Seq<char>,
)
    requires
        message.channel_id == session.target_channel,
        !message.author_is_bot,
        session.bot_user_id == Some(id),
        names_user(message, id),
        session.bot_username matches Some(name) ==> !starts_with_name(message.content, name),
        message.content == "<@"@ + id + ">"@ + rest,
        forall|i: int|
            0 <= i < rest.len() ==> !("<@"@ + id + ">"@).is_prefix_of(#[trigger] rest.skip(i))
                && !("<@!"@ + id + ">"@).is_prefix_of(rest.skip(i)),
    ensures
        action_on(session, written(message, sequence), now) matches ActionView::Deliver {
            message: delivered,
        } && delivered.text == trimmed(rest),
{
    mentions_are_taken_out(session, message, sequence, now, id);
    text_behind_mention_is_left(rest, id);
}

/// Who else a message mentions, and what number its payload has, makes no
/// difference to what is handed on.
pub proof fn other_mentions_make_no_difference(
    session: SessionView,
    message: MessageCreateView,
    mentioned: Seq<Seq<char>>,
    sequence: Option<u64>,
    other_sequence: Option<u64>,
    now: Timestamp,
)
    requires
        session.bot_user_id matches Some(id) ==> (names_user(message, id) <==> names_user(
            MessageCreateView { mentioned, ..message },
            id,
        )),
    ensures
        action_on(session, written(message, sequence), now) == action_on(
            session,
            written(MessageCreateView { mentioned, ..message }, other_sequence),
            now,
        ),
{
    let other = MessageCreateView { mentioned, ..message };
    if let Some(id) = session.bot_user_id {
        assert(names_user(message, id) == message.mentioned.contains(id)) by {
            if names_user(message, id) {
                let i = choose|i: int|
                    0 <= i < message.mentioned.len() && #[trigger] message.mentioned[i] == id;
                assert(message.mentioned[i] == id);
            }
        }
        assert(names_user(other, id) == mentioned.contains(id)) by {
            if names_user(other, id) {
                let i = choose|i: int|
                    0 <= i < other.mentioned.len() && #[trigger] other.mentioned[i] == id;
                assert(mentioned[i] == id);
            }
        }
    }
}

/// A session takes note of a payload's number, of the interval in a greeting, of
/// who the bot is, and of how far the connection has come, each from the one
/// event that tells it; it keeps all else.
pub proof fn session_takes_note_of_what_is_told(session: SessionView, event: EventView)
    ensures
        ({
            let after = session_after(session, event);
            &&& after.token == session.token
            &&& after.target_channel == session.target_channel
            &&& match event {
                EventView::Payload { payload } => {
                    &&& after.sequence == if payload.sequence is Some {
                        payload.sequence
                    } else {
                        session.sequence
                    }
                    &&& payload.meaning matches Meaning::Hello { heartbeat_interval }
                        ==> after.heartbeat_interval == heartbeat_interval
                    &&& !(payload.meaning is Hello) ==> after.heartbeat_interval
                        == session.heartbeat_interval
                    &&& payload.meaning matches Meaning::Ready { id, username } ==> {
                        &&& after.bot_user_id == Some(id)
                        &&& after.bot_username == Some(username)
                        &&& after.state == ConnectionState::Connected
                    }
                    &&& !(payload.meaning is Ready) ==> {
                        &&& after.bot_user_id == session.bot_user_id
                        &&& after.bot_username == session.bot_username
                        &&& after.state == session.state
                    }
                },
                _ => {
                    &&& after.sequence == session.sequence
                    &&& after.heartbeat_interval == session.heartbeat_interval
                    &&& after.bot_user_id == session.bot_user_id
                    &&& after.bot_username == session.bot_username
                    &&& after.state == if event == (EventView::SendDone {
                        sent: Sent::Identify,
                        failure: None,
                    }) {
                        ConnectionState::WaitingForReady
                    } else {
                        session.state
                    }
                },
            }
        }),
{
}

/// A session starts without having been told anything, and waits for the
/// greeting.
pub proof fn session_starts_untold(token: Seq<char>, channel: Seq<char>)
    ensures
        ({
            let session = new_session(token, channel);
            &&& session.token == token
            &&& session.target_channel == channel
            &&& session.heartbeat_interval == 41250
            &&& session.sequence is None
            &&& session.bot_user_id is None
            &&& session.bot_username is None
            &&& session.state == ConnectionState::WaitingForHello
        }),
{
}

/// A greeting is answered by the bot's credentials, and the first heartbeat is
/// due after the interval that the greeting tells, five seconds at most.
pub proof fn greeting_is_answered(
    session: SessionView,
    interval: u64,
    sequence: Option<u64>,
    now: Timestamp,
)
    ensures
        ({
            let event = EventView::Payload {
                payload: PayloadView {
                    meaning: Meaning::Hello { heartbeat_interval: interval },
                    sequence,
                },
            };
            action_on(session, event, now) matches ActionView::Identify {
                heartbeat_in_ms,
                text,
            } && {
                &&& heartbeat_in_ms <= interval
                &&& heartbeat_in_ms <= 5000
                &&& heartbeat_in_ms == interval || heartbeat_in_ms == 5000
                &&& text == json_text(identify_document(session.token))
            }
        }),
        forall|event: EventView| #[trigger]
            action_on(session, event, now) is Identify ==> event is Payload
                && event->payload.meaning is Hello,
{
}

/// A heartbeat that the server asks for is sent at once, and so is one whose
/// time has come, once the greeting was answered; each carries the number that
/// the session then knows. Nothing else makes the session send one.
pub proof fn heartbeats_are_sent_when_asked_or_due(
    session: SessionView,
    event: EventView,
    now: Timestamp,
)
    ensures
        ({
            let action = action_on(session, event, now);
            let asked = event matches EventView::Payload { payload }
                && payload.meaning is HeartbeatRequest;
            let due = event is HeartbeatDue && session.state != ConnectionState::WaitingForHello;
            &&& asked ==> action == (ActionView::SendHeartbeat {
                text: json_text(heartbeat_document(session_after(session, event).sequence)),
                sent: Sent::RequestedHeartbeat,
            })
            &&& due ==> action == (ActionView::SendHeartbeat {
                text: json_text(heartbeat_document(session.sequence)),
                sent: Sent::DueHeartbeat,
            })
            &&& action is SendHeartbeat ==> asked || due
            &&& event is HeartbeatDue && !due ==> action is Wait
        }),
{
}

/// The next heartbeat is timed by the interval once one was sent, and at no
/// other time; credentials that were sent call for nothing more.
pub proof fn sent_heartbeat_times_the_next(
    session: SessionView,
    event: EventView,
    now: Timestamp,
)
    ensures
        ({
            let action = action_on(session, event, now);
            let beat = event == (EventView::SendDone {
                sent: Sent::DueHeartbeat,
                failure: None,
            }) || event == (EventView::SendDone {
                sent: Sent::RequestedHeartbeat,
                failure: None,
            });
            &&& beat ==> action == (ActionView::HeartbeatIn { ms: session.heartbeat_interval })
            &&& action is HeartbeatIn ==> beat
            &&& event == (EventView::SendDone { sent: Sent::Identify, failure: None })
                ==> action is Wait
        }),
{
}

/// A ping is answered with its own data, and nothing else is answered so.
pub proof fn ping_is_answered_with_its_data(session: SessionView, event: EventView, now: Timestamp)
    ensures
        event matches EventView::Ping { data } ==> action_on(session, event, now) == (
        ActionView::SendPong { data }),
        action_on(session, event, now) is SendPong ==> event is Ping,
{
}

/// Each event that ends a session does so with its own error, or with none.
pub proof fn session_ends_with_its_error(
    session: SessionView,
    sequence: Option<u64>,
    detail: Seq<char>,
    now: Timestamp,
)
    ensures
        action_on(session, EventView::Shutdown, now) == ActionView::Close,
        action_on(session, EventView::Closed, now) == (ActionView::Stop { failure: None }),
        action_on(session, EventView::Ended, now) == (ActionView::Stop {
            failure: Some(ErrorView::StreamEnded),
        }),
        action_on(session, EventView::Failed { detail }, now) == (ActionView::Stop {
            failure: Some(ErrorView::WebSocket { detail }),
        }),
        action_on(
            session,
            EventView::Payload {
                payload: PayloadView { meaning: Meaning::InvalidSession, sequence },
            },
            now,
        ) == (ActionView::Stop { failure: Some(ErrorView::SessionInvalidated) }),
        action_on(
            session,
            EventView::Payload {
                payload: PayloadView { meaning: Meaning::ReconnectRequest, sequence },
            },
            now,
        ) == (ActionView::Stop { failure: Some(ErrorView::ReconnectRequested) }),
        action_on(
            session,
            EventView::SendDone { sent: Sent::Identify, failure: Some(detail) },
            now,
        ) == (ActionView::Stop { failure: Some(ErrorView::IdentifyFailed { detail }) }),
        action_on(
            session,
            EventView::SendDone { sent: Sent::DueHeartbeat, failure: Some(detail) },
            now,
        ) == (ActionView::Stop { failure: Some(ErrorView::HeartbeatFailed { detail }) }),
        action_on(
            session,
            EventView::SendDone { sent: Sent::RequestedHeartbeat, failure: Some(detail) },
            now,
        ) == ActionView::Wait,
{
}

/// Being told who the bot is calls for nothing, and the time makes a difference
/// only where a message is handed on.
pub proof fn login_calls_for_nothing(
    session: SessionView,
    id: Seq<char>,
    username: Seq<char>,
    sequence: Option<u64>,
    event: EventView,
    now: Timestamp,
    other: Timestamp,
)
    ensures
        action_on(
            session,
            EventView::Payload {
                payload: PayloadView { meaning: Meaning::Ready { id, username }, sequence },
            },
            now,
        ) == ActionView::Wait,
        !(action_on(session, event, now) is Deliver) ==> action_on(session, event, other)
            == action_on(session, event, now),
{
}

/// A heartbeat holds its opcode and the last number, in digits, or nothing where
/// there is none.
pub proof fn heartbeat_tells_the_number(sequence: Option<u64>)
    ensures
        ({
            let document = heartbeat_document(sequence);
            &&& document is Object
            &&& document->Object_0.dom() == set!["op"@, "d"@]
            &&& document->Object_0["op"@] == JsonView::Number("1"@)
            &&& sequence matches Some(number) ==> {
                &&& document->Object_0["d"@] matches JsonView::Number(digits)
                &&& value_of(digits) == number
                &&& digits == decimal(number as nat)
            }
            &&& sequence is None ==> document->Object_0["d"@] == JsonView::Null
        }),
{
    reveal_strlit("op");
    reveal_strlit("d");
    reveal_strlit("1");
    assert("op"@.len() != "d"@.len());
    assert(decimal(1) =~= "1"@);
    assert(heartbeat_document(sequence)->Object_0.dom() =~= set!["op"@, "d"@]);
    if let Some(number) = sequence {
        number_is_read_back(number as nat);
    }
}

/// The credentials hold their opcode, the token as it was given, the intents
/// for guild messages and their content, and what the client is.
pub proof fn credentials_tell_the_token(token: Seq<char>)
    ensures
        ({
            let document = identify_document(token);
            &&& document is Object
            &&& document->Object_0.dom() == set!["op"@, "d"@]
            &&& document->Object_0["op"@] == JsonView::Number("2"@)
            &&& document->Object_0["d"@] matches JsonView::Object(data)
            &&& data.dom() == set!["token"@, "intents"@, "properties"@]
            &&& data["token"@] == JsonView::Text(token)
            &&& data["intents"@] matches JsonView::Number(digits)
            &&& value_of(digits) == 33280
            &&& digits == decimal(33280)
            &&& data["properties"@] matches JsonView::Object(properties)
            &&& properties.dom() == set!["os"@, "browser"@, "device"@]
            &&& properties["os"@] == JsonView::Text("linux"@)
            &&& properties["browser"@] == JsonView::Text("nexus-gateway"@)
            &&& properties["device"@] == JsonView::Text("nexus-gateway"@)
        }),
{
    reveal_strlit("op");
    reveal_strlit("d");
    reveal_strlit("2");
    reveal_strlit("token");
    reveal_strlit("intents");
    reveal_strlit("properties");
    reveal_strlit("os");
    reveal_strlit("browser");
    reveal_strlit("device");
    assert("op"@.len() == 2 && "d"@.len() == 1);
    assert("token"@.len() == 5 && "intents"@.len() == 7 && "properties"@.len() == 10);
    assert("os"@.len() == 2 && "browser"@.len() == 7 && "device"@.len() == 6);
    assert(decimal(2) =~= "2"@);
    number_is_read_back(33280);
    let members = identify_document(token)->Object_0;
    assert(members.dom() =~= set!["op"@, "d"@]);
    let data = members["d"@]->Object_0;
    assert(data.dom() =~= set!["token"@, "intents"@, "properties"@]);
    let properties = data["properties"@]->Object_0;
    assert(properties.dom() =~= set!["os"@, "browser"@, "device"@]);
}

/// An error is told in words of its own, behind which the detail is told where
/// there is one; where the credentials could not be sent, the detail alone is.
pub proof fn errors_are_told_in_words(detail: Seq<char>)
    ensures
        error_text(ErrorView::SessionInvalidated) == "Discord session invalidated"@,
        error_text(ErrorView::ReconnectRequested) == "Discord requested reconnect"@,
        error_text(ErrorView::StreamEnded) == "WebSocket stream ended"@,
        error_text(ErrorView::WebSocket { detail }) == "WebSocket error: "@ + detail,
        error_text(ErrorView::HeartbeatFailed { detail }) == "Failed to send heartbeat: "@
            + detail,
        error_text(ErrorView::IdentifyFailed { detail }) == detail,
{
}

/// A payload is told by its opcode, a dispatched event by its name too, and
/// either counts only where its data can be read as what it is to hold.
pub proof fn payload_is_told_by_opcode(payload: GatewayPayload)
    ensures
        payload@.sequence == payload.sequence,
        payload@.meaning is HeartbeatRequest <==> payload.op == 1,
        payload@.meaning is ReconnectRequest <==> payload.op == 7,
        payload@.meaning is InvalidSession <==> payload.op == 9,
        payload@.meaning is Hello <==> payload.op == 10 && payload.data is Some
            && payload.data->0.hello is Some,
        payload@.meaning matches Meaning::Hello { heartbeat_interval } ==> heartbeat_interval
            == payload.data->0.hello->0.heartbeat_interval,
        payload@.meaning is Ready <==> payload.op == 0 && (payload.event_type matches Some(name)
            && name@ == "READY"@) && payload.data is Some && payload.data->0.ready is Some,
        payload@.meaning matches Meaning::Ready { id, username } ==> id
            == payload.data->0.ready->0.user.id@ && username
            == payload.data->0.ready->0.user.username@,
        payload@.meaning is Message <==> payload.op == 0 && (payload.event_type matches Some(name)
            && name@ == "MESSAGE_CREATE"@) && payload.data is Some
            && payload.data->0.message is Some,
        payload@.meaning matches Meaning::Message { message } ==> message
            == payload.data->0.message->0@,
{
    reveal_strlit("READY");
    reveal_strlit("MESSAGE_CREATE");
    assert("READY"@.len() != "MESSAGE_CREATE"@.len());
}

/// Of a message that was written, all is seen but the name of who wrote it.
pub proof fn written_message_is_seen(message: MessageCreateData)
    ensures
        message@.id == message.id@,
        message@.content == message.content@,
        message@.channel_id == message.channel_id@,
        message@.author_id == message.author.id@,
        message@.author_is_bot == message.author.bot,
        message@.mentioned.len() == message.mentions@.len(),
        forall|i: int|
            0 <= i < message.mentions@.len() ==> #[trigger] message@.mentioned[i]
                == message.mentions@[i].id@,
{
}

/// Of an event nothing that means anything is left out of sight.
pub proof fn event_is_seen(event: GatewayEvent)
    ensures
        event@ is Shutdown <==> event is Shutdown,
        event@ is HeartbeatDue <==> event is HeartbeatDue,
        event matches GatewayEvent::SendDone { sent, failure } ==> {
            &&& event@ matches EventView::SendDone { sent: seen, failure: told }
            &&& seen == sent
            &&& told is Some <==> failure is Some
            &&& failure matches Some(detail) ==> told == Some(detail@)
        },
        event matches GatewayEvent::Received { frame } ==> {
            &&& event@ is Closed <==> frame is Close
            &&& event@ is Ended <==> frame is Ended
            &&& event@ is Ignored <==> frame is Pong || frame is Other || frame
                == (Frame::Text { payload: None })
            &&& frame matches Frame::Text { payload: Some(payload) } ==> event@ == (
            EventView::Payload { payload: payload@ })
            &&& frame matches Frame::Ping { data } ==> event@ == (EventView::Ping { data: data@ })
            &&& frame matches Frame::Failed { detail } ==> event@ == (EventView::Failed {
                detail: detail@,
            })
        },
{
}

/// Of an action nothing is left out of sight.
pub proof fn gateway_action_is_seen_whole(action: GatewayAction)
    ensures
        action@ is Wait <==> action is Wait,
        action@ is Close <==> action is Close,
        action matches GatewayAction::SendHeartbeat { text, sent } ==> action@ == (
        ActionView::SendHeartbeat { text: text@, sent }),
        action matches GatewayAction::Identify { heartbeat_in_ms, text } ==> action@ == (
        ActionView::Identify { heartbeat_in_ms, text: text@ }),
        action matches GatewayAction::HeartbeatIn { ms } ==> action@ == (ActionView::HeartbeatIn {
            ms,
        }),
        action matches GatewayAction::SendPong { data } ==> action@ == (ActionView::SendPong {
            data: data@,
        }),
        action matches GatewayAction::Deliver { message } ==> action@ == (ActionView::Deliver {
            message: message@,
        }),
        action matches GatewayAction::Stop { failure: Some(error) } ==> action@ == (
        ActionView::Stop { failure: Some(error@) }),
        action matches GatewayAction::Stop { failure: None } ==> action@ == (ActionView::Stop {
            failure: None,
        }),
{
}

/// Of an error nothing is left out of sight.
pub proof fn error_is_seen_whole(error: GatewayError)
    ensures
        error@ is SessionInvalidated <==> error is SessionInvalidated,
        error@ is ReconnectRequested <==> error is ReconnectRequested,
        error@ is StreamEnded <==> error is StreamEnded,
        error matches GatewayError::WebSocket { detail } ==> error@ == (ErrorView::WebSocket {
            detail: detail@,
        }),
        error matches GatewayError::HeartbeatFailed { detail } ==> error@ == (
        ErrorView::HeartbeatFailed { detail: detail@ }),
        error matches GatewayError::IdentifyFailed { detail } ==> error@ == (
        ErrorView::IdentifyFailed { detail: detail@ }),
{
}

} // verus!
