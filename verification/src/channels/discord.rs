//! Messages to humans on Discord: how they are worded, and the request that
//! posts them.
use crate::channels::gateway::CHANNEL_ID;
use crate::json::{
    array_value, bool_value, debug_text, get_member, json_debug_text, json_view, json_views,
    member, number_value, object_value, text_in, text_value, JsonView,
};
use crate::messages::{OutboundMessage, OutboundMessageType, OutboundMessageView};
use crate::text::{decimal, decimal_text, joined};
use vstd::prelude::*;

verus! {

/// The colour of approval requests.
pub const APPROVAL_COLOR: u64 = 16753920;

/// The colour of questions.
pub const QUESTION_COLOR: u64 = 3447003;

/// A bot and the conversation that it writes to.
pub struct DiscordPlugin {
    bot_token: String,
    channel_id: String,
}

/// A [`DiscordPlugin`] as a mathematical value.
pub struct DiscordPluginView {
    pub bot_token: Seq<char>,
    pub channel_id: Seq<char>,
}

impl View for DiscordPlugin {
    type V = DiscordPluginView;

    closed spec fn view(&self) -> DiscordPluginView {
        DiscordPluginView { bot_token: self.bot_token@, channel_id: self.channel_id@ }
    }
}

/// A request that posts a message.
pub struct DiscordRequest {
    pub url: String,
    pub authorization: String,
    pub content_type: String,
    pub body: serde_json::Value,
}

/// A [`DiscordRequest`] as a mathematical value.
pub struct DiscordRequestView {
    pub url: Seq<char>,
    pub authorization: Seq<char>,
    pub content_type: Seq<char>,
    pub body: JsonView,
}

impl View for DiscordRequest {
    type V = DiscordRequestView;

    open spec fn view(&self) -> DiscordRequestView {
        DiscordRequestView {
            url: self.url@,
            authorization: self.authorization@,
            content_type: self.content_type@,
            body: json_view(self.body),
        }
    }
}

/// The text under a name in a configuration.
pub open spec fn setting(config: JsonView, name: Seq<char>) -> Option<Seq<char>> {
    match member(config, name) {
        Some(value) => text_in(value),
        None => None,
    }
}

/// The plugin that a configuration describes: both settings must be texts.
pub open spec fn configured(config: JsonView) -> Option<DiscordPluginView> {
    match (setting(config, "bot_token"@), setting(config, "channel_id"@)) {
        (Some(bot_token), Some(channel_id)) => Some(DiscordPluginView { bot_token, channel_id }),
        _ => None,
    }
}

/// A name, or a question mark where there is none.
pub open spec fn name_or_unknown(name: Option<Seq<char>>) -> Seq<char> {
    match name {
        Some(known) => known,
        None => "?"@,
    }
}

/// A message as a human reads it.
pub open spec fn wording(message: OutboundMessageView) -> Seq<char> {
    match message.message_type {
        OutboundMessageType::WorkflowStarted => "🚀 Starting ticket "@ + name_or_unknown(
            message.ticket_id,
        ) + ": "@ + message.content,
        OutboundMessageType::AgentAssigned => "👷 "@ + name_or_unknown(message.worker_id)
            + " assigned to "@ + message.content,
        OutboundMessageType::AgentCompleted => "✅ "@ + name_or_unknown(message.worker_id)
            + " completed: "@ + message.content,
        OutboundMessageType::WorkflowError => "❌ "@ + name_or_unknown(message.worker_id) + ": "@
            + message.content,
        OutboundMessageType::QuestionToHuman => "🤔 "@ + message.content,
        OutboundMessageType::ApprovalRequest => "⚠️ Approval needed: "@ + message.content,
        OutboundMessageType::StatusUpdate => "📊 "@ + message.content,
        OutboundMessageType::Other => message.content,
    }
}

/// The texts among some documents, in their order.
pub open spec fn texts_among(documents: Seq<JsonView>) -> Seq<Seq<char>>
    decreases documents.len(),
{
    if documents.len() == 0 {
        Seq::empty()
    } else {
        match text_in(documents.last()) {
            Some(text) => texts_among(documents.drop_last()).push(text),
            None => texts_among(documents.drop_last()),
        }
    }
}

/// Texts with their numbers in front, counted from one.
pub open spec fn numbered(texts: Seq<Seq<char>>) -> Seq<Seq<char>> {
    Seq::new(texts.len(), |i: int| decimal((i + 1) as nat) + ". "@ + texts[i])
}

/// The options that a question offers, one on a line.
pub open spec fn option_lines(metadata: JsonView) -> Seq<char> {
    match member(metadata, "options"@) {
        Some(JsonView::Array(items)) => joined(numbered(texts_among(items)), "\n"@),
        _ => Seq::empty(),
    }
}

/// The box of an approval request.
pub open spec fn approval_embed(message: OutboundMessageView) -> JsonView {
    let worker = name_or_unknown(message.worker_id);
    JsonView::Object(
        map![
            "title"@ => JsonView::Text("Approval Request"@),
            "description"@ => JsonView::Text(message.content),
            "color"@ => JsonView::Number(decimal(APPROVAL_COLOR as nat)),
            "footer"@ => JsonView::Object(map![
                "text"@ => JsonView::Text(
                    "Reply with `approve "@ + worker + "` to approve or `reject "@ + worker
                        + "` to reject"@,
                ),
            ]),
        ],
    )
}

/// The box of a question.
pub open spec fn question_embed(message: OutboundMessageView) -> JsonView {
    let ticket = name_or_unknown(message.ticket_id);
    JsonView::Object(
        map![
            "title"@ => JsonView::Text("Question"@),
            "description"@ => JsonView::Text(message.content),
            "color"@ => JsonView::Number(decimal(QUESTION_COLOR as nat)),
            "fields"@ => JsonView::Array(seq![JsonView::Object(map![
                "name"@ => JsonView::Text("Options"@),
                "value"@ => JsonView::Text(option_lines(message.metadata)),
                "inline"@ => JsonView::Bool(false),
            ])]),
            "footer"@ => JsonView::Object(map![
                "text"@ => JsonView::Text(
                    "Reply with `answer "@ + ticket + ": <your response>`"@,
                ),
            ]),
        ],
    )
}

/// The boxes under a message.
pub open spec fn embeds(message: OutboundMessageView) -> Seq<JsonView> {
    match message.message_type {
        OutboundMessageType::ApprovalRequest => seq![approval_embed(message)],
        OutboundMessageType::QuestionToHuman => seq![question_embed(message)],
        _ => Seq::empty(),
    }
}

/// The request that posts a message.
pub open spec fn posting(
    plugin: DiscordPluginView,
    message: OutboundMessageView,
) -> DiscordRequestView {
    DiscordRequestView {
        url: "https://discord.com/api/v10/channels/"@ + plugin.channel_id + "/messages"@,
        authorization: "Bot "@ + plugin.bot_token,
        content_type: "application/json"@,
        body: JsonView::Object(
            map![
                "content"@ => JsonView::Text(wording(message)),
                "embeds"@ => JsonView::Array(embeds(message)),
            ],
        ),
    }
}

/// The question that a human is asked.
pub open spec fn question(
    content: Seq<char>,
    options: Seq<Seq<char>>,
    ticket_id: Seq<char>,
) -> OutboundMessageView {
    OutboundMessageView {
        message_type: OutboundMessageType::QuestionToHuman,
        target_channel: None,
        target_conversation: None,
        content,
        ticket_id: Some(ticket_id),
        worker_id: None,
        metadata: JsonView::Object(
            map![
                "options"@ => JsonView::Array(
                    Seq::new(options.len(), |i: int| JsonView::Text(options[i])),
                ),
            ],
        ),
    }
}

/// Several texts as mathematical values.
pub open spec fn texts(options: Seq<&str>) -> Seq<Seq<char>> {
    Seq::new(options.len(), |i: int| options[i]@)
}

/// The text under a name in a configuration.
fn read_setting<'a>(config: &'a serde_json::Value, name: &str) -> (found: Option<&'a str>)
    ensures
        found is Some <==> setting(json_view(*config), name@) is Some,
        found matches Some(text) ==> setting(json_view(*config), name@) == Some(text@),
{
    match get_member(config, name) {
        Some(value) => value.as_str(),
        None => None,
    }
}

/// A name, or a question mark where there is none.
fn name_or_mark(name: &Option<String>) -> (text: &str)
    ensures
        text@ == name_or_unknown(crate::text::optional(*name)),
{
    match name {
        Some(known) => known.as_str(),
        None => "?",
    }
}

/// The options that a question offers, one on a line.
fn list_options(metadata: &serde_json::Value) -> (lines: String)
    ensures
        lines@ == option_lines(json_view(*metadata)),
{
    let items = match get_member(metadata, "options") {
        Some(options) => match options.as_array() {
            Some(items) => items,
            None => {
                return String::new();
            },
        },
        None => {
            return String::new();
        },
    };
    let ghost documents = json_views(items@);
    let mut lines = String::new();
    let mut count: u64 = 0;
    let mut i: usize = 0;
    while i < items.len()
        invariant
            i <= items@.len(),
            count <= i,
            documents == json_views(items@),
            count == texts_among(documents.take(i as int)).len(),
            lines@ == joined(numbered(texts_among(documents.take(i as int))), "\n"@),
        decreases items@.len() - i,
    {
        let ghost before = texts_among(documents.take(i as int));
        assert(documents.take(i + 1).drop_last() =~= documents.take(i as int));
        if let Some(option) = items[i].as_str() {
            if count > 0 {
                lines.append("\n");
            }
            count = count + 1;
            lines.append(decimal_text(count).as_str());
            lines.append(". ");
            lines.append(option);
            proof {
                let after = numbered(before.push(option@));
                assert(after.drop_last() =~= numbered(before));
            }
        }
        i = i + 1;
    }
    assert(documents.take(items@.len() as int) =~= documents);
    lines
}

impl DiscordPlugin {
    /// A plugin for a bot and the conversation that it writes to.
    pub fn new(bot_token: String, channel_id: String) -> (plugin: DiscordPlugin)
        ensures
            plugin@ == (DiscordPluginView { bot_token: bot_token@, channel_id: channel_id@ }),
    {
        DiscordPlugin { bot_token, channel_id }
    }

    /// The plugin that a configuration describes.
    pub fn from_config(config: &serde_json::Value) -> (plugin: Option<DiscordPlugin>)
        ensures
            plugin is Some <==> configured(json_view(*config)) is Some,
            plugin matches Some(made) ==> configured(json_view(*config)) == Some(made@),
    {
        let token = match read_setting(config, "bot_token") {
            Some(text) => text,
            None => {
                return None;
            },
        };
        let channel = match read_setting(config, "channel_id") {
            Some(text) => text,
            None => {
                return None;
            },
        };
        Some(DiscordPlugin::new(token.to_owned(), channel.to_owned()))
    }

    /// The bot's token.
    pub fn bot_token(&self) -> (token: &str)
        ensures
            token@ == self@.bot_token,
    {
        self.bot_token.as_str()
    }

    /// The conversation that the bot writes to.
    pub fn conversation_id(&self) -> (conversation: &str)
        ensures
            conversation@ == self@.channel_id,
    {
        self.channel_id.as_str()
    }

    /// The id of the channel that the plugin serves.
    pub fn channel_id(&self) -> (id: &str)
        ensures
            id@ == "discord"@,
    {
        CHANNEL_ID
    }

    /// A message as a human reads it.
    pub fn format_message(&self, msg: &OutboundMessage) -> (text: String)
        ensures
            text@ == wording(msg@),
    {
        match msg.message_type {
            OutboundMessageType::WorkflowStarted => "🚀 Starting ticket ".to_owned().concat(
                name_or_mark(&msg.ticket_id),
            ).concat(": ").concat(msg.content.as_str()),
            OutboundMessageType::AgentAssigned => "👷 ".to_owned().concat(
                name_or_mark(&msg.worker_id),
            ).concat(" assigned to ").concat(msg.content.as_str()),
            OutboundMessageType::AgentCompleted => "✅ ".to_owned().concat(
                name_or_mark(&msg.worker_id),
            ).concat(" completed: ").concat(msg.content.as_str()),
            OutboundMessageType::WorkflowError => "❌ ".to_owned().concat(
                name_or_mark(&msg.worker_id),
            ).concat(": ").concat(msg.content.as_str()),
            OutboundMessageType::QuestionToHuman => "🤔 ".to_owned().concat(msg.content.as_str()),
            OutboundMessageType::ApprovalRequest => "⚠️ Approval needed: ".to_owned().concat(
                msg.content.as_str(),
            ),
            OutboundMessageType::StatusUpdate => "📊 ".to_owned().concat(msg.content.as_str()),
            OutboundMessageType::Other => msg.content.clone(),
        }
    }

    /// The boxes under a message.
    pub fn build_embeds(&self, msg: &OutboundMessage) -> (boxes: Vec<serde_json::Value>)
        ensures
            json_views(boxes@) == embeds(msg@),
    {
        let mut boxes: Vec<serde_json::Value> = Vec::new();
        match msg.message_type {
            OutboundMessageType::ApprovalRequest => {
                let worker = name_or_mark(&msg.worker_id);
                let mut footer = serde_json::Map::new();
                footer.insert(
                    "text".to_owned(),
                    text_value(
                        "Reply with `approve ".to_owned().concat(worker).concat(
                            "` to approve or `reject ",
                        ).concat(worker).concat("` to reject"),
                    ),
                );
                let mut embed = serde_json::Map::new();
                embed.insert("title".to_owned(), text_value("Approval Request".to_owned()));
                embed.insert("description".to_owned(), text_value(msg.content.clone()));
                embed.insert("color".to_owned(), number_value(APPROVAL_COLOR));
                embed.insert("footer".to_owned(), object_value(footer));
                boxes.push(object_value(embed));
            },
            OutboundMessageType::QuestionToHuman => {
                let ticket = name_or_mark(&msg.ticket_id);
                let mut field = serde_json::Map::new();
                field.insert("name".to_owned(), text_value("Options".to_owned()));
                field.insert("value".to_owned(), text_value(list_options(&msg.metadata)));
                field.insert("inline".to_owned(), bool_value(false));
                let mut fields: Vec<serde_json::Value> = Vec::new();
                fields.push(object_value(field));
                let mut footer = serde_json::Map::new();
                footer.insert(
                    "text".to_owned(),
                    text_value(
                        "Reply with `answer ".to_owned().concat(ticket).concat(
                            ": <your response>`",
                        ),
                    ),
                );
                let mut embed = serde_json::Map::new();
                embed.insert("title".to_owned(), text_value("Question".to_owned()));
                embed.insert("description".to_owned(), text_value(msg.content.clone()));
                embed.insert("color".to_owned(), number_value(QUESTION_COLOR));
                embed.insert("fields".to_owned(), array_value(fields));
                embed.insert("footer".to_owned(), object_value(footer));
                boxes.push(object_value(embed));
                assert(json_views(fields@) =~= seq![json_view(fields@[0])]);
            },
            _ => {},
        }
        boxes
    }

    /// The request that posts a message.
    pub fn message_request(&self, msg: &OutboundMessage) -> (request: DiscordRequest)
        ensures
            request@ == posting(self@, msg@),
    {
        let mut body = serde_json::Map::new();
        body.insert("content".to_owned(), text_value(self.format_message(msg)));
        body.insert("embeds".to_owned(), array_value(self.build_embeds(msg)));
        DiscordRequest {
            url: "https://discord.com/api/v10/channels/".to_owned().concat(
                self.channel_id.as_str(),
            ).concat("/messages"),
            authorization: "Bot ".to_owned().concat(self.bot_token.as_str()),
            content_type: "application/json".to_owned(),
            body: object_value(body),
        }
    }

    /// The question to put to a human, with the answers that are offered.
    pub fn question_to_human(
        &self,
        content: &str,
        options: &[&str],
        ticket_id: &str,
    ) -> (msg: OutboundMessage)
        ensures
            msg@ == question(content@, texts(options@), ticket_id@),
    {
        let mut items: Vec<serde_json::Value> = Vec::new();
        let mut i: usize = 0;
        while i < options.len()
            invariant
                i <= options@.len(),
                items@.len() == i,
                forall|j: int|
                    0 <= j < i ==> json_view(#[trigger] items@[j]) == JsonView::Text(
                        options@[j]@,
                    ),
            decreases options@.len() - i,
        {
            items.push(text_value(options[i].to_owned()));
            i = i + 1;
        }
        assert(json_views(items@) =~= Seq::new(
            options@.len(),
            |j: int| JsonView::Text(texts(options@)[j]),
        ));
        let mut metadata = serde_json::Map::new();
        metadata.insert("options".to_owned(), array_value(items));
        OutboundMessage {
            message_type: OutboundMessageType::QuestionToHuman,
            target_channel: None,
            target_conversation: None,
            content: content.to_owned(),
            ticket_id: Some(ticket_id.to_owned()),
            worker_id: None,
            metadata: object_value(metadata),
        }
    }
}

/// Whether a response says that the message was posted.
pub fn is_posted(status: u16) -> (answer: bool)
    ensures
        answer == (200 <= status < 300),
{
    200 <= status && status < 300
}

/// What to report of a response that says otherwise.
pub fn api_error(body: &serde_json::Value) -> (text: String)
    ensures
        text@ == "Discord API error: "@ + json_debug_text(json_view(*body)),
{
    "Discord API error: ".to_owned().concat(debug_text(body).as_str())
}

/// A question put to a human lists every option that it offers, in their
/// order, each on a line of its own and numbered from one.
pub proof fn question_lists_its_options(
    content: Seq<char>,
    options: Seq<Seq<char>>,
    ticket_id: Seq<char>,
)
    ensures
        option_lines(question(content, options, ticket_id).metadata) == joined(
            numbered(options),
            "\n"@,
        ),
{
    lemma_all_texts(options);
}

/// Texts that were put into documents are found there.
proof fn lemma_all_texts(options: Seq<Seq<char>>)
    ensures
        texts_among(Seq::new(options.len(), |i: int| JsonView::Text(options[i]))) == options,
    decreases options.len(),
{
    let documents = Seq::new(options.len(), |i: int| JsonView::Text(options[i]));
    if options.len() > 0 {
        let fewer = options.drop_last();
        lemma_all_texts(fewer);
        assert(documents.drop_last() =~= Seq::new(fewer.len(), |i: int| JsonView::Text(fewer[i])));
    }
}

/// A message has one box under it where a human is asked for a reply, and
/// none otherwise.
pub proof fn box_asks_for_reply(message: OutboundMessageView)
    ensures
        embeds(message).len() == if message.message_type == OutboundMessageType::ApprovalRequest
            || message.message_type == OutboundMessageType::QuestionToHuman {
            1nat
        } else {
            0nat
        },
{
}

/// A configuration that holds both settings as texts describes the plugin of
/// those settings, whatever else it holds.
pub proof fn settings_are_read_back(
    rest: Map<Seq<char>, JsonView>,
    bot_token: Seq<char>,
    channel_id: Seq<char>,
)
    ensures
        configured(
            JsonView::Object(
                rest.insert("bot_token"@, JsonView::Text(bot_token)).insert(
                    "channel_id"@,
                    JsonView::Text(channel_id),
                ),
            ),
        ) == Some(DiscordPluginView { bot_token, channel_id }),
{
    reveal_strlit("bot_token");
    reveal_strlit("channel_id");
    assert("bot_token"@.len() != "channel_id"@.len());
}

} // verus!
