use llama_cpp_simple::CallbackRegistry;
use llama_cpp_simple::TokenRecorder;
use llama_cpp_simple::TokenSink;

#[test]
fn register_then_unregister_round_trip() {
    let mut registry: CallbackRegistry<TokenRecorder> = CallbackRegistry::new();
    assert_eq!(registry.len(), 0);
    registry.register(10, TokenRecorder::new());
    assert!(registry.contains(10));
    assert_eq!(registry.len(), 1);
    let removed = registry.unregister(10).unwrap();
    assert!(removed.tokens.is_empty());
    assert!(!registry.contains(10));
    assert_eq!(registry.len(), 0);
}

#[test]
fn register_replaces_with_last_write_wins() {
    let mut registry: CallbackRegistry<TokenRecorder> = CallbackRegistry::new();
    registry.register(10, TokenRecorder::stopping_after(1));
    registry.register(10, TokenRecorder::stopping_after(9));
    assert_eq!(registry.len(), 1);
    let entry = registry.unregister(10).unwrap();
    assert_eq!(entry.stop_after, Some(9));
}

#[test]
fn unregister_of_unknown_identity_is_a_noop() {
    let mut registry: CallbackRegistry<TokenRecorder> = CallbackRegistry::new();
    registry.register(10, TokenRecorder::new());
    assert!(registry.unregister(99).is_none());
    assert_eq!(registry.len(), 1);
    assert!(registry.contains(10));
}

#[test]
fn dispatch_forwards_token_and_answer() {
    let mut registry: CallbackRegistry<TokenRecorder> = CallbackRegistry::new();
    registry.register(4, TokenRecorder::stopping_after(2));
    assert!(registry.dispatch(4, "one".to_string()));
    assert!(!registry.dispatch(4, "two".to_string()));
    let entry = registry.unregister(4).unwrap();
    assert_eq!(entry.tokens, vec!["one".to_string(), "two".to_string()]);
}

#[test]
fn dispatch_miss_answers_continue_and_changes_nothing() {
    let mut registry: CallbackRegistry<TokenRecorder> = CallbackRegistry::new();
    assert!(registry.dispatch(77, "ghost".to_string()));
    assert_eq!(registry.len(), 0);
    registry.register(1, TokenRecorder::new());
    assert!(registry.dispatch(77, "ghost".to_string()));
    let entry = registry.unregister(1).unwrap();
    assert!(entry.tokens.is_empty());
}

#[test]
fn trampoline_decode_failure_answers_stop() {
    let mut registry: CallbackRegistry<TokenRecorder> = CallbackRegistry::new();
    registry.register(4, TokenRecorder::new());
    assert!(!registry.trampoline_step(4, None));
    assert!(registry.trampoline_step(4, Some("ok".to_string())));
    let entry = registry.unregister(4).unwrap();
    assert_eq!(entry.tokens, vec!["ok".to_string()]);
}

#[test]
fn recorder_answers_stop_exactly_at_its_stop_position() {
    let mut recorder = TokenRecorder::stopping_after(3);
    assert!(recorder.consume("a".to_string()));
    assert!(recorder.consume("b".to_string()));
    assert!(!recorder.consume("c".to_string()));
    assert_eq!(recorder.tokens.len(), 3);

    let mut unbounded = TokenRecorder::new();
    for i in 0..100 {
        assert!(unbounded.consume(format!("t{i}")));
    }
    assert_eq!(unbounded.tokens.len(), 100);
}
