use nexus_gateway::channels::discord::{api_error, is_posted, DiscordPlugin};
use nexus_gateway::messages::{OutboundMessage, OutboundMessageType};
use serde_json::Value;

fn parse(text: &str) -> Value {
    serde_json::from_str(text).unwrap()
}

fn plugin() -> DiscordPlugin {
    DiscordPlugin::new("t0k".to_string(), "77".to_string())
}

fn message(message_type: OutboundMessageType, ticket: Option<&str>, worker: Option<&str>) -> OutboundMessage {
    OutboundMessage {
        message_type,
        target_channel: None,
        target_conversation: None,
        content: "do it".to_string(),
        ticket_id: ticket.map(|t| t.to_string()),
        worker_id: worker.map(|w| w.to_string()),
        metadata: Value::Null,
    }
}

#[test]
fn config_with_both_settings_makes_a_plugin() {
    let made =
        DiscordPlugin::from_config(&parse(r#"{"bot_token":"abc","channel_id":"123","x":1}"#))
            .unwrap();
    assert_eq!(made.bot_token(), "abc");
    assert_eq!(made.conversation_id(), "123");
    assert_eq!(made.channel_id(), "discord");
}

#[test]
fn config_without_a_text_setting_makes_none() {
    for config in [
        r#"{"bot_token":"abc"}"#,
        r#"{"channel_id":"123"}"#,
        r#"{"bot_token":"abc","channel_id":123}"#,
        r#"{"bot_token":null,"channel_id":"123"}"#,
        r#"["bot_token","channel_id"]"#,
        r#""bot_token""#,
        "null",
    ] {
        assert!(DiscordPlugin::from_config(&parse(config)).is_none(), "{}", config);
    }
}

#[test]
fn messages_are_worded_by_their_type() {
    let p = plugin();
    let text = |t, ticket, worker| p.format_message(&message(t, ticket, worker));
    assert_eq!(
        text(OutboundMessageType::WorkflowStarted, Some("T-1"), None),
        "🚀 Starting ticket T-1: do it"
    );
    assert_eq!(
        text(OutboundMessageType::WorkflowStarted, None, Some("w")),
        "🚀 Starting ticket ?: do it"
    );
    assert_eq!(text(OutboundMessageType::AgentAssigned, None, Some("forge")), "👷 forge assigned to do it");
    assert_eq!(text(OutboundMessageType::AgentAssigned, None, None), "👷 ? assigned to do it");
    assert_eq!(text(OutboundMessageType::AgentCompleted, None, Some("forge")), "✅ forge completed: do it");
    assert_eq!(text(OutboundMessageType::WorkflowError, None, Some("forge")), "❌ forge: do it");
    assert_eq!(text(OutboundMessageType::QuestionToHuman, None, None), "🤔 do it");
    assert_eq!(text(OutboundMessageType::ApprovalRequest, None, None), "\u{26a0}\u{fe0f} Approval needed: do it");
    assert_eq!(text(OutboundMessageType::StatusUpdate, None, None), "📊 do it");
    assert_eq!(text(OutboundMessageType::Other, Some("T"), Some("w")), "do it");
}

#[test]
fn approval_request_has_a_box() {
    let boxes = plugin().build_embeds(&message(OutboundMessageType::ApprovalRequest, None, Some("w1")));
    assert_eq!(
        boxes,
        vec![parse(
            r#"{"title":"Approval Request","description":"do it","color":16753920,
                "footer":{"text":"Reply with `approve w1` to approve or `reject w1` to reject"}}"#
        )]
    );
}

#[test]
fn question_has_a_box_with_numbered_options() {
    let mut question = message(OutboundMessageType::QuestionToHuman, Some("T-9"), None);
    question.metadata = parse(r#"{"options":["yes",1,"no",null,"say \"why\""]}"#);
    assert_eq!(
        plugin().build_embeds(&question),
        vec![parse(
            r#"{"title":"Question","description":"do it","color":3447003,
                "fields":[{"name":"Options","value":"1. yes\n2. no\n3. say \"why\"","inline":false}],
                "footer":{"text":"Reply with `answer T-9: <your response>`"}}"#
        )]
    );
}

#[test]
fn question_without_options_has_an_empty_list() {
    for metadata in ["null", "{}", r#"{"options":"yes"}"#, r#"{"options":[]}"#, r#"["options"]"#] {
        let mut question = message(OutboundMessageType::QuestionToHuman, None, None);
        question.metadata = parse(metadata);
        let boxes = plugin().build_embeds(&question);
        assert_eq!(boxes[0]["fields"][0]["value"], "");
        assert_eq!(boxes[0]["footer"]["text"], "Reply with `answer ?: <your response>`");
    }
}

#[test]
fn other_messages_have_no_box() {
    for t in [
        OutboundMessageType::WorkflowStarted,
        OutboundMessageType::AgentAssigned,
        OutboundMessageType::AgentCompleted,
        OutboundMessageType::WorkflowError,
        OutboundMessageType::StatusUpdate,
        OutboundMessageType::Other,
    ] {
        assert!(plugin().build_embeds(&message(t, None, None)).is_empty());
    }
}

#[test]
fn asked_question_lists_its_options() {
    let options: Vec<String> = (1..=12).map(|n| format!("choice {}", n)).collect();
    let slices: Vec<&str> = options.iter().map(|o| o.as_str()).collect();
    let asked = plugin().question_to_human("Which?", &slices, "T-3");
    assert_eq!(asked.message_type, OutboundMessageType::QuestionToHuman);
    assert_eq!(asked.content, "Which?");
    assert_eq!(asked.ticket_id, Some("T-3".to_string()));
    assert_eq!(asked.worker_id, None);
    assert_eq!(asked.target_channel, None);
    assert_eq!(asked.target_conversation, None);
    let boxes = plugin().build_embeds(&asked);
    let value = boxes[0]["fields"][0]["value"].as_str().unwrap();
    let lines: Vec<&str> = value.split('\n').collect();
    assert_eq!(lines.len(), 12);
    assert_eq!(lines[0], "1. choice 1");
    assert_eq!(lines[9], "10. choice 10");
    assert_eq!(lines[11], "12. choice 12");
}

#[test]
fn request_posts_text_and_boxes() {
    let request = plugin().message_request(&message(OutboundMessageType::StatusUpdate, None, None));
    assert_eq!(request.url, "https://discord.com/api/v10/channels/77/messages");
    assert_eq!(request.authorization, "Bot t0k");
    assert_eq!(request.content_type, "application/json");
    assert_eq!(request.body, parse(r#"{"content":"📊 do it","embeds":[]}"#));
    let asked = plugin().message_request(&message(OutboundMessageType::ApprovalRequest, None, None));
    assert_eq!(asked.body["embeds"][0]["title"], "Approval Request");
}

#[test]
fn only_success_statuses_count_as_posted() {
    assert!(is_posted(200));
    assert!(is_posted(299));
    assert!(!is_posted(199));
    assert!(!is_posted(300));
    assert!(!is_posted(429));
}

#[test]
fn refused_post_is_reported_with_its_body() {
    let body = parse(r#"{"code":50001,"message":"Missing Access"}"#);
    assert_eq!(
        api_error(&body),
        r#"Discord API error: Object {"code": Number(50001), "message": String("Missing Access")}"#
    );
}
