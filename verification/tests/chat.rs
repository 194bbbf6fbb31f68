use rust_ai_ready_stack::app_error::AppError;
use rust_ai_ready_stack::chat::{
    build_conversation_history, ChatConversationInput, ChatConversationUseCase,
    ChatProviderResponse, ConversationStore,
};
use rust_ai_ready_stack::entities::ConversationMessage;

fn message(i: usize) -> ConversationMessage {
    ConversationMessage {
        sender: if i % 2 == 0 { "User".to_string() } else { "Assistant".to_string() },
        content: format!("m{}", i),
        time: format!("t{}", i),
    }
}

#[test]
fn history_of_a_short_conversation() {
    let history = build_conversation_history(&vec![message(0), message(1)]);
    assert_eq!(
        history,
        "-----\nTime: t0\nRole: User\nMessage: m0\n-----\nTime: t1\nRole: Assistant\nMessage: m1"
    );
    assert_eq!(build_conversation_history(&vec![]), "");
}

#[test]
fn history_keeps_the_last_ten_messages() {
    let messages: Vec<ConversationMessage> = (0..12).map(message).collect();
    let history = build_conversation_history(&messages);
    assert!(history.starts_with("-----\nTime: t2\n"));
    assert!(history.ends_with("Message: m11"));
    assert_eq!(history.matches("-----").count(), 10);
}

#[test]
fn a_new_conversation_gets_an_identifier() {
    let mut store = ConversationStore::new();
    let turn = store
        .start_turn_with(
            ChatConversationInput { id: None, content: "Olá".to_string() },
            "i0".to_string(),
            "t0".to_string(),
            "c-1".to_string(),
        )
        .ok()
        .unwrap();
    assert_eq!(turn.conversation_id, "c-1");
    assert_eq!(turn.message_time, "t0");
    assert_eq!(turn.history, "-----\nTime: t0\nRole: User\nMessage: Olá");
    assert!(store.contains("c-1"));
    assert_eq!(store.message_count("c-1"), Some(1));
}

#[test]
fn continuing_an_unknown_conversation_is_refused() {
    let mut store = ConversationStore::new();
    match store.start_turn(ChatConversationInput { id: Some("nope".to_string()), content: "x".to_string() }) {
        Err(AppError::NotFound(m)) => assert_eq!(m, "Conversa com ID nope não encontrada"),
        _ => panic!("expected not found"),
    }
    assert!(!store.contains("nope"));
}

#[test]
fn a_full_turn_records_both_messages() {
    let mut store = ConversationStore::new();
    let turn = store.start_turn(ChatConversationInput { id: None, content: "Oi".to_string() }).ok().unwrap();
    let id = turn.conversation_id.clone();
    assert_eq!(id.len(), 36);
    let time = turn.message_time.clone();
    let result = ChatConversationUseCase::<()>::finish_turn(
        &mut store,
        turn,
        ChatProviderResponse { content: "Resposta".to_string(), category: "Suporte".to_string() },
    )
    .ok()
    .unwrap();
    assert_eq!(result.id, id);
    assert_eq!(result.content, "Resposta");
    assert_eq!(result.category, "Suporte");
    assert_eq!(result.time, time);
    assert_eq!(store.message_count(&id), Some(2));
    let next = store
        .start_turn(ChatConversationInput { id: Some(id.clone()), content: "De novo".to_string() })
        .ok()
        .unwrap();
    assert_eq!(next.conversation_id, id);
    assert!(next.history.contains("Role: Assistant\nMessage: Resposta"));
    assert!(next.history.ends_with("Role: User\nMessage: De novo"));
    assert_eq!(store.message_count(&id), Some(3));
}

#[test]
fn a_reply_to_an_unknown_conversation_is_refused() {
    let mut store = ConversationStore::new();
    match store.record_reply("nope", "x".to_string()) {
        Err(AppError::InternalError(m)) => {
            assert_eq!(m, "Falha ao recuperar conversa para persistir resposta")
        }
        _ => panic!("expected an internal error"),
    }
}
