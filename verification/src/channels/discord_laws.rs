//! What holds of the messages that are posted to humans.
use crate::channels::discord::{
    configured, embeds, numbered, option_lines, posting, question, question_lists_its_options,
    texts, texts_among, wording, DiscordPluginView, DiscordRequest, DiscordRequestView,
};
use crate::json::{json_view, json_views, member, text_in, JsonView};
use crate::messages::{
    InboundMessage, OutboundMessage, OutboundMessageType, OutboundMessageView,
};
use crate::text::{decimal, joined};
use crate::text_laws::{joining_splits_anywhere, number_is_read_back, value_of};
use vstd::prelude::*;

verus! {

/// The members of a document that is an object.
pub open spec fn members_of(document: JsonView) -> Map<Seq<char>, JsonView> {
    document->Object_0
}

/// The boxes that a request posts.
pub open spec fn posted_boxes(request: DiscordRequestView) -> Seq<JsonView> {
    members_of(request.body)["embeds"@]->Array_0
}

/// Whether two messages agree in all but who is named in them, where they go
/// and what else is noted.
pub open spec fn say_the_same(message: OutboundMessageView, other: OutboundMessageView) -> bool {
    message.message_type == other.message_type && message.content == other.content
}

/// The ticket is named only where work starts, and the worker only where one is
/// assigned, is done or has failed: any other message has the same text
/// whichever they are. Where a message goes and what else is noted never makes
/// a difference.
pub proof fn names_matter_only_where_told(
    message: OutboundMessageView,
    other: OutboundMessageView,
)
    requires
        say_the_same(message, other),
        message.message_type == OutboundMessageType::WorkflowStarted ==> message.ticket_id
            == other.ticket_id,
        message.message_type == OutboundMessageType::AgentAssigned || message.message_type
            == OutboundMessageType::AgentCompleted || message.message_type
            == OutboundMessageType::WorkflowError ==> message.worker_id == other.worker_id,
    ensures
        wording(message) == wording(other),
{
}

/// A message that a worker is done names the worker, or shows a question mark
/// where none is known, and then says what the message says.
pub proof fn completion_names_the_worker(message: OutboundMessageView)
    requires
        message.message_type == OutboundMessageType::AgentCompleted,
    ensures
        message.worker_id matches Some(worker) ==> wording(message) == "✅ "@ + worker
            + " completed: "@ + message.content,
        message.worker_id is None ==> wording(message) == "✅ "@ + "?"@ + " completed: "@
            + message.content,
{
}

/// A message that a worker was assigned names the worker, or shows a question
/// mark.
pub proof fn assignment_names_the_worker(message: OutboundMessageView)
    requires
        message.message_type == OutboundMessageType::AgentAssigned,
    ensures
        message.worker_id matches Some(worker) ==> wording(message) == "👷 "@ + worker
            + " assigned to "@ + message.content,
        message.worker_id is None ==> wording(message) == "👷 "@ + "?"@ + " assigned to "@
            + message.content,
{
}

/// A message that something failed names the worker, or shows a question mark.
pub proof fn failure_names_the_worker(message: OutboundMessageView)
    requires
        message.message_type == OutboundMessageType::WorkflowError,
    ensures
        message.worker_id matches Some(worker) ==> wording(message) == "❌ "@ + worker + ": "@
            + message.content,
        message.worker_id is None ==> wording(message) == "❌ "@ + "?"@ + ": "@ + message.content,
{
}

/// A message that work starts names the ticket, or shows a question mark.
pub proof fn start_names_the_ticket(message: OutboundMessageView)
    requires
        message.message_type == OutboundMessageType::WorkflowStarted,
    ensures
        message.ticket_id matches Some(ticket) ==> wording(message) == "🚀 Starting ticket "@
            + ticket + ": "@ + message.content,
        message.ticket_id is None ==> wording(message) == "🚀 Starting ticket "@ + "?"@ + ": "@
            + message.content,
{
}

/// Any other message is a mark of its type and what the message says, and one
/// of no type of its own just what it says.
pub proof fn others_are_marked_by_type(message: OutboundMessageView)
    ensures
        message.message_type == OutboundMessageType::QuestionToHuman ==> wording(message)
            == "🤔 "@ + message.content,
        message.message_type == OutboundMessageType::ApprovalRequest ==> wording(message)
            == "⚠️ Approval needed: "@ + message.content,
        message.message_type == OutboundMessageType::StatusUpdate ==> wording(message) == "📊 "@
            + message.content,
        message.message_type == OutboundMessageType::Other ==> wording(message)
            == message.content,
{
}

/// The text of a message ends with all that the message says.
pub proof fn content_is_told_whole(message: OutboundMessageView)
    ensures
        message.content.len() <= wording(message).len(),
        wording(message).skip(wording(message).len() - message.content.len()) == message.content,
{
    let text = wording(message);
    let start = text.len() - message.content.len();
    assert(text.skip(start) =~= message.content);
}

/// Messages of one type that name the same and say different things have
/// different texts.
pub proof fn contents_are_told_apart(message: OutboundMessageView, content: Seq<char>)
    requires
        content != message.content,
    ensures
        wording(OutboundMessageView { content, ..message }) != wording(message),
{
    let other = OutboundMessageView { content, ..message };
    content_is_told_whole(message);
    content_is_told_whole(other);
    if wording(other) == wording(message) {
        lemma_rest_of_wording(message, content);
        assert(content.len() == message.content.len());
    }
}

/// How much longer the text of a message is does not depend on what it says.
proof fn lemma_rest_of_wording(message: OutboundMessageView, content: Seq<char>)
    ensures
        wording(OutboundMessageView { content, ..message }).len() - content.len() == wording(
            message,
        ).len() - message.content.len(),
{
}

/// A message is posted to the plugin's conversation, with the plugin's token;
/// the body holds its text and exactly the boxes built for it, whatever its
/// type.
pub proof fn text_and_boxes_are_posted(plugin: DiscordPluginView, message: OutboundMessageView)
    ensures
        ({
            let request = posting(plugin, message);
            &&& request.url == "https://discord.com/api/v10/channels/"@ + plugin.channel_id
                + "/messages"@
            &&& request.authorization == "Bot "@ + plugin.bot_token
            &&& request.content_type == "application/json"@
            &&& request.body is Object
            &&& members_of(request.body).dom() == set!["content"@, "embeds"@]
            &&& members_of(request.body)["content"@] == JsonView::Text(wording(message))
            &&& members_of(request.body)["embeds"@] == JsonView::Array(embeds(message))
        }),
{
    reveal_strlit("content");
    reveal_strlit("embeds");
    assert("content"@.len() != "embeds"@.len());
    assert(members_of(posting(plugin, message).body).dom() =~= set!["content"@, "embeds"@]);
}

/// A question is posted with one box, which shows the question, lists the
/// options and tells how to answer for its ticket.
pub proof fn question_is_posted_with_its_box(
    plugin: DiscordPluginView,
    message: OutboundMessageView,
)
    requires
        message.message_type == OutboundMessageType::QuestionToHuman,
    ensures
        ({
            let boxes = posted_boxes(posting(plugin, message));
            let shown = members_of(boxes[0]);
            &&& boxes.len() == 1
            &&& boxes[0] is Object
            &&& shown.dom() == set!["title"@, "description"@, "color"@, "fields"@, "footer"@]
            &&& shown["title"@] == JsonView::Text("Question"@)
            &&& shown["description"@] == JsonView::Text(message.content)
            &&& shown["color"@] matches JsonView::Number(digits)
            &&& digits == decimal(3447003)
            &&& value_of(digits) == 3447003
            &&& shown["fields"@] matches JsonView::Array(fields)
            &&& fields.len() == 1
            &&& fields[0] is Object
            &&& members_of(fields[0]).dom() == set!["name"@, "value"@, "inline"@]
            &&& members_of(fields[0])["name"@] == JsonView::Text("Options"@)
            &&& members_of(fields[0])["value"@] == JsonView::Text(option_lines(message.metadata))
            &&& members_of(fields[0])["inline"@] == JsonView::Bool(false)
            &&& shown["footer"@] is Object
            &&& members_of(shown["footer"@]).dom() == set!["text"@]
            &&& message.ticket_id matches Some(ticket) ==> members_of(shown["footer"@])["text"@]
                == JsonView::Text("Reply with `answer "@ + ticket + ": <your response>`"@)
            &&& message.ticket_id is None ==> members_of(shown["footer"@])["text"@]
                == JsonView::Text("Reply with `answer "@ + "?"@ + ": <your response>`"@)
        }),
{
    text_and_boxes_are_posted(plugin, message);
    lemma_names();
    number_is_read_back(3447003);
    let boxes = posted_boxes(posting(plugin, message));
    let shown = members_of(boxes[0]);
    assert(shown.dom() =~= set!["title"@, "description"@, "color"@, "fields"@, "footer"@]);
    let field = members_of(shown["fields"@]->Array_0[0]);
    assert(field.dom() =~= set!["name"@, "value"@, "inline"@]);
    assert(members_of(shown["footer"@]).dom() =~= set!["text"@]);
}

/// A question put to a human is posted with all its options, in their order,
/// each on a line of its own and numbered from one.
pub proof fn options_are_posted(
    plugin: DiscordPluginView,
    content: Seq<char>,
    options: Seq<Seq<char>>,
    ticket_id: Seq<char>,
)
    ensures
        ({
            let boxes = posted_boxes(posting(plugin, question(content, options, ticket_id)));
            let lines = Seq::new(
                options.len(),
                |i: int| decimal((i + 1) as nat) + ". "@ + options[i],
            );
            &&& boxes.len() == 1
            &&& members_of(boxes[0])["fields"@] matches JsonView::Array(fields)
            &&& members_of(fields[0])["value"@] == JsonView::Text(joined(lines, "\n"@))
        }),
{
    let message = question(content, options, ticket_id);
    question_is_posted_with_its_box(plugin, message);
    question_lists_its_options(content, options, ticket_id);
    assert(numbered(options) =~= Seq::new(
        options.len(),
        |i: int| decimal((i + 1) as nat) + ". "@ + options[i],
    ));
}

/// A request for approval is posted with one box, which shows what is to be
/// approved and tells how to approve or reject it for its worker.
pub proof fn approval_is_posted_with_its_box(
    plugin: DiscordPluginView,
    message: OutboundMessageView,
)
    requires
        message.message_type == OutboundMessageType::ApprovalRequest,
    ensures
        ({
            let boxes = posted_boxes(posting(plugin, message));
            let shown = members_of(boxes[0]);
            &&& boxes.len() == 1
            &&& boxes[0] is Object
            &&& shown.dom() == set!["title"@, "description"@, "color"@, "footer"@]
            &&& shown["title"@] == JsonView::Text("Approval Request"@)
            &&& shown["description"@] == JsonView::Text(message.content)
            &&& shown["color"@] matches JsonView::Number(digits)
            &&& digits == decimal(16753920)
            &&& value_of(digits) == 16753920
            &&& shown["footer"@] is Object
            &&& members_of(shown["footer"@]).dom() == set!["text"@]
            &&& message.worker_id matches Some(worker) ==> members_of(shown["footer"@])["text"@]
                == JsonView::Text(
                "Reply with `approve "@ + worker + "` to approve or `reject "@ + worker
                    + "` to reject"@,
            )
            &&& message.worker_id is None ==> members_of(shown["footer"@])["text"@]
                == JsonView::Text(
                "Reply with `approve "@ + "?"@ + "` to approve or `reject "@ + "?"@
                    + "` to reject"@,
            )
        }),
{
    text_and_boxes_are_posted(plugin, message);
    lemma_names();
    number_is_read_back(16753920);
    let boxes = posted_boxes(posting(plugin, message));
    let shown = members_of(boxes[0]);
    assert(shown.dom() =~= set!["title"@, "description"@, "color"@, "footer"@]);
    assert(members_of(shown["footer"@]).dom() =~= set!["text"@]);
}

/// The names of members differ.
proof fn lemma_names()
    ensures
        "title"@ != "description"@,
        "title"@ != "color"@,
        "title"@ != "fields"@,
        "title"@ != "footer"@,
        "description"@ != "color"@,
        "description"@ != "fields"@,
        "description"@ != "footer"@,
        "color"@ != "fields"@,
        "color"@ != "footer"@,
        "fields"@ != "footer"@,
        "name"@ != "value"@,
        "name"@ != "inline"@,
        "value"@ != "inline"@,
{
    reveal_strlit("title");
    reveal_strlit("description");
    reveal_strlit("color");
    reveal_strlit("fields");
    reveal_strlit("footer");
    reveal_strlit("name");
    reveal_strlit("value");
    reveal_strlit("inline");
    assert("title"@[0] == 't' && "color"@[0] == 'c');
    assert("name"@.len() == 4 && "value"@.len() == 5 && "inline"@.len() == 6);
    assert("fields"@[1] == 'i' && "footer"@[1] == 'o');
}

/// A message that asks for no reply is posted without a box.
pub proof fn others_are_posted_without_box(
    plugin: DiscordPluginView,
    message: OutboundMessageView,
)
    requires
        message.message_type != OutboundMessageType::ApprovalRequest,
        message.message_type != OutboundMessageType::QuestionToHuman,
    ensures
        posted_boxes(posting(plugin, message)).len() == 0,
{
    text_and_boxes_are_posted(plugin, message);
}

/// One more option is one more line, with the next number in front; an option
/// that is no text has no line and no number. Without options there are no
/// lines.
pub proof fn each_option_has_its_line(
    metadata: JsonView,
    others: Map<Seq<char>, JsonView>,
    options: Seq<JsonView>,
    option: JsonView,
)
    ensures
        ({
            let fewer = option_lines(
                JsonView::Object(others.insert("options"@, JsonView::Array(options))),
            );
            let more = option_lines(
                JsonView::Object(
                    others.insert("options"@, JsonView::Array(options.push(option))),
                ),
            );
            let number = decimal(texts_among(options).len() + 1);
            match option {
                JsonView::Text(text) => more == if texts_among(options).len() == 0 {
                    number + ". "@ + text
                } else {
                    fewer + "\n"@ + (number + ". "@ + text)
                },
                _ => more == fewer,
            }
        }),
        option_lines(
            JsonView::Object(others.insert("options"@, JsonView::Array(Seq::empty()))),
        ).len() == 0,
        !(metadata is Object && members_of(metadata).contains_key("options"@) && members_of(
            metadata,
        )["options"@] is Array) ==> option_lines(metadata).len() == 0,
{
    texts_are_picked_in_order(options, option);
    let before = texts_among(options);
    if let JsonView::Text(text) = option {
        let after = numbered(before.push(text));
        let line = decimal(before.len() + 1) + ". "@ + text;
        assert(after =~= numbered(before) + seq![line]);
        joining_splits_anywhere(numbered(before), seq![line], line, "\n"@);
        if before.len() == 0 {
            assert(after =~= seq![line]);
        }
    }
    assert(texts_among(Seq::<JsonView>::empty()) =~= Seq::empty());
    assert(numbered(Seq::empty()) =~= Seq::empty());
}

/// Of documents the texts are picked, each once and in their order.
pub proof fn texts_are_picked_in_order(documents: Seq<JsonView>, document: JsonView)
    ensures
        texts_among(Seq::empty()).len() == 0,
        document matches JsonView::Text(text) ==> texts_among(documents.push(document))
            == texts_among(documents).push(text),
        !(document is Text) ==> texts_among(documents.push(document)) == texts_among(documents),
{
    assert(documents.push(document).drop_last() =~= documents);
}

/// Every text is on its line with its number, counted from one.
pub proof fn lines_are_numbered_from_one(texts: Seq<Seq<char>>)
    ensures
        numbered(texts).len() == texts.len(),
        forall|i: int|
            0 <= i < texts.len() ==> #[trigger] numbered(texts)[i] == decimal((i + 1) as nat)
                + ". "@ + texts[i],
{
}

/// A question put to a human is a question of the ticket, with just the options
/// noted, all of them and in their order.
pub proof fn question_holds_its_parts(
    content: Seq<char>,
    options: Seq<Seq<char>>,
    ticket_id: Seq<char>,
)
    ensures
        ({
            let asked = question(content, options, ticket_id);
            &&& asked.message_type == OutboundMessageType::QuestionToHuman
            &&& asked.target_channel is None
            &&& asked.target_conversation is None
            &&& asked.content == content
            &&& asked.ticket_id == Some(ticket_id)
            &&& asked.worker_id is None
            &&& asked.metadata is Object
            &&& members_of(asked.metadata).dom() == set!["options"@]
            &&& members_of(asked.metadata)["options"@] matches JsonView::Array(items)
            &&& items.len() == options.len()
            &&& forall|i: int|
                0 <= i < items.len() ==> #[trigger] items[i] == JsonView::Text(options[i])
        }),
{
    assert(members_of(question(content, options, ticket_id).metadata).dom() =~= set!["options"@]);
}

/// The plugin of a configuration has the two settings as they are noted there;
/// without either of them as a text there is none.
pub proof fn plugin_is_made_of_settings(config: JsonView)
    ensures
        configured(config) is Some <==> config is Object && members_of(config).contains_key(
            "bot_token"@,
        ) && members_of(config).contains_key("channel_id"@) && members_of(config)["bot_token"@]
            is Text && members_of(config)["channel_id"@] is Text,
        configured(config) matches Some(plugin) ==> members_of(config)["bot_token"@]
            == JsonView::Text(plugin.bot_token) && members_of(config)["channel_id"@]
            == JsonView::Text(plugin.channel_id),
{
}

/// A member is found under its name in an object, and nowhere else; only texts
/// are read as texts.
pub proof fn members_and_texts_are_read(document: JsonView, name: Seq<char>)
    ensures
        member(document, name) is Some <==> document is Object && members_of(
            document,
        ).contains_key(name),
        member(document, name) matches Some(value) ==> members_of(document)[name] == value,
        text_in(document) is Some <==> document is Text,
        text_in(document) matches Some(text) ==> document == JsonView::Text(text),
{
}

/// Of several documents each is seen, and of several texts each.
pub proof fn each_is_seen(values: Seq<serde_json::Value>, options: Seq<&str>)
    ensures
        json_views(values).len() == values.len(),
        forall|i: int|
            0 <= i < values.len() ==> #[trigger] json_views(values)[i] == json_view(values[i]),
        texts(options).len() == options.len(),
        forall|i: int| 0 <= i < options.len() ==> #[trigger] texts(options)[i] == options[i]@,
{
}

/// Of a message to a human nothing is left out of sight.
pub proof fn outbound_message_is_seen_whole(message: OutboundMessage)
    ensures
        message@.message_type == message.message_type,
        message@.content == message.content@,
        message@.metadata == json_view(message.metadata),
        message.ticket_id matches Some(ticket) ==> message@.ticket_id == Some(ticket@),
        message.ticket_id is None ==> message@.ticket_id is None,
        message.worker_id matches Some(worker) ==> message@.worker_id == Some(worker@),
        message.worker_id is None ==> message@.worker_id is None,
        message.target_channel matches Some(channel) ==> message@.target_channel == Some(channel@),
        message.target_channel is None ==> message@.target_channel is None,
        message.target_conversation matches Some(conversation) ==> message@.target_conversation
            == Some(conversation@),
        message.target_conversation is None ==> message@.target_conversation is None,
{
}

/// Of a message from a human, and of a request, nothing is left out of sight.
pub proof fn inbound_message_is_seen_whole(message: InboundMessage, request: DiscordRequest)
    ensures
        message@.message_id == message.message_id@,
        message@.channel_id == message.channel_id@,
        message@.user_id == message.user_id@,
        message@.conversation_id == message.conversation_id@,
        message@.text == message.text@,
        message@.timestamp == message.timestamp,
        message@.metadata == json_view(message.metadata),
        request@.url == request.url@,
        request@.authorization == request.authorization@,
        request@.content_type == request.content_type@,
        request@.body == json_view(request.body),
{
}

} // verus!
