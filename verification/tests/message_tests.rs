use agent_core::message::Conversation;
use agent_core::message::Message;
use agent_core::message::Role;

#[test]
fn test_message_creation() {
    let msg = Message::user("Hello");
    assert_eq!(msg.role, Role::User);
    assert_eq!(msg.content, "Hello");
}

#[test]
fn test_conversation() {
    let mut conv = Conversation::with_system_prompt("You are helpful.");
    conv.push(Message::user("Hi"));
    conv.push(Message::assistant("Hello!"));

    assert_eq!(conv.len(), 3);
    assert!(conv.last().unwrap().role == Role::Assistant);
}

#[test]
fn test_message_estimate_formula() {
    // 5 bytes / 4 = 1, plus the fixed overhead of 4.
    assert_eq!(Message::user("Hello").estimate_tokens(), 5);
    // Empty content still counts the overhead.
    assert_eq!(Message::user("").estimate_tokens(), 4);
    // 8 bytes / 4 = 2, plus 4.
    assert_eq!(Message::assistant("12345678").estimate_tokens(), 6);
}

#[test]
fn test_conversation_estimate_sums_messages() {
    let mut conv = Conversation::new();
    assert_eq!(conv.estimate_tokens(), 0);
    conv.push(Message::user("Hello"));
    assert_eq!(conv.estimate_tokens(), 5);
    conv.push(Message::assistant("12345678"));
    assert_eq!(conv.estimate_tokens(), 11);
}

#[test]
fn test_estimate_non_decreasing_under_push() {
    let mut conv = Conversation::new();
    let mut last = conv.estimate_tokens();
    for i in 0..20 {
        conv.push(Message::user(&"y".repeat(i * 7)));
        let now = conv.estimate_tokens();
        assert!(now >= last);
        last = now;
    }
}

#[test]
fn test_truncate_keeps_system_and_final_message() {
    let mut conv = Conversation::with_system_prompt("rules");
    conv.push(Message::user(&"x".repeat(40000)));
    conv.push(Message::assistant(&"y".repeat(40000)));
    conv.push(Message::user("last"));
    assert!(conv.estimate_tokens() > 8192);

    conv.truncate_to_fit();

    let msgs = conv.messages();
    assert_eq!(msgs.len(), 2);
    assert_eq!(msgs[0].role, Role::System);
    assert_eq!(msgs[0].content, "rules");
    assert_eq!(msgs[1].content, "last");
}

#[test]
fn test_truncate_no_change_when_under_budget() {
    let mut conv = Conversation::with_system_prompt("rules");
    conv.push(Message::user("hi"));
    conv.push(Message::assistant("hello"));
    conv.truncate_to_fit();
    assert_eq!(conv.len(), 3);
}

#[test]
fn test_truncate_gives_up_rather_than_evict_required() {
    // Two oversized messages: the system prompt and the final message can
    // never be evicted, so the conversation stays over budget.
    let mut conv = Conversation::with_system_prompt(&"s".repeat(40000));
    conv.push(Message::user(&"u".repeat(40000)));
    conv.truncate_to_fit();
    assert_eq!(conv.len(), 2);
    assert!(conv.estimate_tokens() > 8192);
}

#[test]
fn test_truncate_never_evicts_system_messages() {
    // A system message that sits in the middle of the history survives
    // eviction; its oversized neighbours do not.
    let mut conv = Conversation::with_system_prompt("first rules");
    conv.push(Message::user(&"a".repeat(40000)));
    conv.push(Message::system("more rules"));
    conv.push(Message::user(&"b".repeat(40000)));
    conv.push(Message::user("last"));

    conv.truncate_to_fit();

    let contents: Vec<&str> = conv.messages().iter().map(|m| m.content.as_str()).collect();
    assert_eq!(contents, vec!["first rules", "more rules", "last"]);
}

#[test]
fn test_clear_history_keeps_system_messages() {
    let mut conv = Conversation::with_system_prompt("rules");
    conv.push(Message::user("hi"));
    conv.push(Message::assistant("hello"));
    conv.clear_history();
    assert_eq!(conv.len(), 1);
    assert_eq!(conv.messages()[0].role, Role::System);
}

#[test]
fn test_tool_message_records_call_id() {
    let msg = Message::tool("output", Some("call-7".to_string()));
    assert_eq!(msg.role, Role::Tool);
    let md = msg.metadata.expect("metadata");
    assert_eq!(md.tool_call_id.as_deref(), Some("call-7"));

    let bare = Message::tool("output", None);
    assert!(bare.metadata.is_none());
}

#[test]
fn test_with_name() {
    let msg = Message::user("hi").with_name("alice");
    assert_eq!(msg.name.as_deref(), Some("alice"));
}
