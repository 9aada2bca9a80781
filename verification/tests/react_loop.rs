use nexus_gateway::messages::{InboundMessage, SystemCommand, Timestamp};
use nexus_gateway::react_loop::{
    process_gateway_messages, ProcessAction, ProcessEvent, AGENT_NAME, MAX_REACT_STEPS,
};
use serde_json::Value;

fn message() -> InboundMessage {
    numbered("m")
}

fn numbered(id: &str) -> InboundMessage {
    InboundMessage {
        message_id: id.to_string(),
        channel_id: "discord".to_string(),
        user_id: "u".to_string(),
        conversation_id: "c".to_string(),
        text: "status".to_string(),
        timestamp: Timestamp { secs: 1, nanos: 2 },
        metadata: Value::Null,
    }
}

#[test]
fn message_is_reasoned_about_then_interpreted() {
    match process_gateway_messages(ProcessEvent::Received { next: Some(message()) }) {
        ProcessAction::Reason { message: m } => assert_eq!(m, message()),
        other => panic!("{:?}", other),
    }
    for failed in [false, true] {
        match process_gateway_messages(ProcessEvent::Reasoned { message: message(), failed }) {
            ProcessAction::Interpret { message: m } => assert_eq!(m, message()),
            other => panic!("{:?}", other),
        }
    }
}

#[test]
fn interpreted_command_is_executed() {
    let event = ProcessEvent::Interpreted { command: Some(SystemCommand::StatusQuery) };
    match process_gateway_messages(event) {
        ProcessAction::Execute { command } => assert_eq!(command, SystemCommand::StatusQuery),
        other => panic!("{:?}", other),
    }
}

#[test]
fn queue_is_asked_until_it_is_empty() {
    for event in [
        ProcessEvent::Started,
        ProcessEvent::Interpreted { command: None },
        ProcessEvent::Executed { failed: false },
        ProcessEvent::Executed { failed: true },
    ] {
        assert!(matches!(process_gateway_messages(event), ProcessAction::Receive));
    }
    let empty = ProcessEvent::Received { next: None };
    assert!(matches!(process_gateway_messages(empty), ProcessAction::Finish));
}

#[test]
fn run_handles_messages_in_order_until_queue_is_empty() {
    let ids = ["a", "b", "c", "b"];
    let mut queue = ids.iter();
    let mut reasoned = Vec::new();
    let mut interpreted = Vec::new();
    let mut executed = 0;
    let mut event = ProcessEvent::Started;
    loop {
        event = match process_gateway_messages(event) {
            ProcessAction::Receive => {
                ProcessEvent::Received { next: queue.next().map(|id| numbered(id)) }
            }
            ProcessAction::Reason { message } => {
                reasoned.push(message.message_id.clone());
                let failed = message.message_id == "a";
                ProcessEvent::Reasoned { message, failed }
            }
            ProcessAction::Interpret { message } => {
                interpreted.push(message.message_id.clone());
                let command = if message.message_id == "b" {
                    Some(SystemCommand::StatusQuery)
                } else {
                    None
                };
                ProcessEvent::Interpreted { command }
            }
            ProcessAction::Execute { command } => {
                assert_eq!(command, SystemCommand::StatusQuery);
                executed += 1;
                ProcessEvent::Executed { failed: executed == 1 }
            }
            ProcessAction::Finish => break,
        };
    }
    assert_eq!(reasoned, ids);
    assert_eq!(interpreted, ids);
    assert_eq!(executed, 2);
}

#[test]
fn nexus_reasons_in_eight_steps() {
    assert_eq!(AGENT_NAME, "nexus");
    assert_eq!(MAX_REACT_STEPS, 8);
}
