use linktor::types::ai::{ChatMessage, Choice, CompletionResponse, EmbeddingInput};
use linktor::types::auth::LoginInput;
use linktor::types::common::PaginationParams;
use linktor::types::contact::ListContactsParams;
use linktor::types::conversation::{
    ConversationPriority, ConversationStatus, ListConversationsParams,
};
use linktor::types::vre::MenuOpcaoData;

#[test]
fn chat_message_constructors_set_roles() {
    assert_eq!(ChatMessage::user("hi").role, "user");
    assert_eq!(ChatMessage::assistant("hello").role, "assistant");
    assert_eq!(ChatMessage::system("rules").role, "system");
    assert_eq!(ChatMessage::user("hi").content, "hi");
}

#[test]
fn completion_response_content_returns_first_choice() {
    let response = CompletionResponse {
        id: "cmpl_1".to_string(),
        object: "chat.completion".to_string(),
        created: 0,
        model: "m".to_string(),
        choices: vec![
            Choice {
                index: 0,
                message: Some(ChatMessage::assistant("4")),
                finish_reason: Some("stop".to_string()),
            },
            Choice {
                index: 1,
                message: Some(ChatMessage::assistant("four")),
                finish_reason: None,
            },
        ],
        usage: None,
    };
    assert_eq!(response.content(), Some("4"));
}

#[test]
fn completion_response_content_handles_missing_message() {
    let empty = CompletionResponse {
        id: "cmpl_1".to_string(),
        object: "chat.completion".to_string(),
        created: 0,
        model: "m".to_string(),
        choices: vec![],
        usage: None,
    };
    assert_eq!(empty.content(), None);
}

#[test]
fn embedding_input_single_and_batch_are_exclusive() {
    let single = EmbeddingInput::single("text");
    assert_eq!(single.input.as_deref(), Some("text"));
    assert!(single.inputs.is_none());
    let batch = EmbeddingInput::batch(vec!["a".to_string(), "b".to_string()]);
    assert!(batch.input.is_none());
    assert_eq!(batch.inputs.as_ref().unwrap().len(), 2);
}

#[test]
fn login_input_holds_credentials() {
    let input = LoginInput::new("user@example.test", "SECRET-REDACTED");
    assert_eq!(input.email, "user@example.test");
    assert_eq!(input.password, "SECRET-REDACTED");
}

#[test]
fn pagination_params_builders_compose() {
    let p = PaginationParams::new().page(2).limit(50).cursor("abc");
    assert_eq!(p.page, Some(2));
    assert_eq!(p.limit, Some(50));
    assert_eq!(p.cursor.as_deref(), Some("abc"));
    assert!(p.sort_by.is_none());
}

#[test]
fn contact_params_builders_compose() {
    let p = ListContactsParams::new().search("ada").limit(10);
    assert_eq!(p.search.as_deref(), Some("ada"));
    assert_eq!(p.limit, Some(10));
    assert!(p.tag.is_none());
}

#[test]
fn conversation_params_builders_compose() {
    let p = ListConversationsParams::new()
        .status(ConversationStatus::Open)
        .priority(ConversationPriority::High)
        .channel_id("chan_1")
        .limit(25);
    assert_eq!(p.status, Some(ConversationStatus::Open));
    assert_eq!(p.priority, Some(ConversationPriority::High));
    assert_eq!(p.channel_id.as_deref(), Some("chan_1"));
    assert_eq!(p.limit, Some(25));
    assert!(p.cursor.is_none());
}

#[test]
fn menu_option_builders_compose() {
    let m = MenuOpcaoData::new("Pizza").descricao("com queijo").icone("slice");
    assert_eq!(m.label, "Pizza");
    assert_eq!(m.descricao.as_deref(), Some("com queijo"));
    assert_eq!(m.icone.as_deref(), Some("slice"));
}
