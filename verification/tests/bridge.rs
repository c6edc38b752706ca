use llama_cpp_simple::CallbackRegistry;
use llama_cpp_simple::CreationError;
use llama_cpp_simple::EncodingError;
use llama_cpp_simple::LlamaCppSimple;
use llama_cpp_simple::LlamaOptions;
use llama_cpp_simple::TokenRecorder;
use llama_cpp_simple::generate;

fn options_for(model_path: &str) -> LlamaOptions {
    LlamaOptions {
        model_path: model_path.to_string(),
        context: 512,
        gpu_layers: 0,
        threads: 4,
        seed: 777,
        batch_size: 8,
    }
}

fn produced(tokens: &[&str]) -> Vec<String> {
    tokens.iter().map(|t| t.to_string()).collect()
}

#[test]
fn default_options_values() {
    let opts = LlamaOptions::default();
    assert_eq!(opts.model_path, "path/to/model");
    assert_eq!(opts.context, 4096);
    assert_eq!(opts.gpu_layers, 20);
    assert_eq!(opts.threads, 4);
    assert_eq!(opts.seed, 777);
    assert_eq!(opts.batch_size, 8);
}

#[test]
fn create_captures_configuration() {
    let handle = LlamaCppSimple::create(options_for("model.gguf"), Some(41)).unwrap();
    assert_eq!(handle.context_identity(), 41);
    assert!(handle.alive());
    let opts = handle.options();
    assert_eq!(opts.model_path, "model.gguf");
    assert_eq!(opts.context, 512);
    assert_eq!(opts.gpu_layers, 0);
    assert_eq!(opts.threads, 4);
    assert_eq!(opts.seed, 777);
    assert_eq!(opts.batch_size, 8);
}

#[test]
fn failed_create_reports_native_init_failure() {
    let result = LlamaCppSimple::create(options_for("no/such/model.gguf"), None);
    assert_eq!(result.unwrap_err(), CreationError::NativeInitFailed);
}

#[test]
fn full_generation_delivers_every_token_in_order() {
    let mut registry: CallbackRegistry<TokenRecorder> = CallbackRegistry::new();
    let mut handle = LlamaCppSimple::create(options_for("model.gguf"), Some(7)).unwrap();
    let stream = produced(&["Hel", "lo", ", ", "wor", "ld!"]);
    let (count, recorder) = generate(
        &mut handle,
        &mut registry,
        "Hello, world!",
        5,
        &stream,
        TokenRecorder::new(),
    )
    .unwrap();
    assert_eq!(count, 5);
    assert_eq!(recorder.tokens, stream);
    for token in &recorder.tokens {
        assert!(!token.is_empty());
    }
    assert!(!registry.contains(7));
    assert_eq!(registry.len(), 0);
    handle.destroy();
    assert!(!handle.alive());
}

#[test]
fn early_stop_returns_count_at_stop_token() {
    let mut registry: CallbackRegistry<TokenRecorder> = CallbackRegistry::new();
    let mut handle = LlamaCppSimple::create(options_for("model.gguf"), Some(7)).unwrap();
    let stream = produced(&["a", "b", "c", "d", "e", "f", "g", "h", "i", "j"]);
    let (count, recorder) = generate(
        &mut handle,
        &mut registry,
        "abc",
        10,
        &stream,
        TokenRecorder::stopping_after(3),
    )
    .unwrap();
    assert_eq!(count, 3);
    assert_eq!(recorder.tokens, produced(&["a", "b", "c"]));
    assert!(!registry.contains(7));
}

#[test]
fn stopped_consumer_sees_no_further_tokens() {
    let mut registry: CallbackRegistry<TokenRecorder> = CallbackRegistry::new();
    let mut handle = LlamaCppSimple::create(options_for("model.gguf"), Some(3)).unwrap();
    let stream = produced(&["t1", "t2", "t3", "t4", "t5", "t6"]);
    let (count, recorder) = generate(
        &mut handle,
        &mut registry,
        "p",
        6,
        &stream,
        TokenRecorder::stopping_after(2),
    )
    .unwrap();
    assert_eq!(count, 2);
    assert_eq!(recorder.tokens.len(), 2);
    assert_eq!(recorder.tokens, produced(&["t1", "t2"]));
}

#[test]
fn max_tokens_caps_the_delivery() {
    let mut registry: CallbackRegistry<TokenRecorder> = CallbackRegistry::new();
    let mut handle = LlamaCppSimple::create(options_for("model.gguf"), Some(9)).unwrap();
    let stream = produced(&["a", "b", "c", "d", "e", "f"]);
    let (count, recorder) =
        generate(&mut handle, &mut registry, "p", 4, &stream, TokenRecorder::new()).unwrap();
    assert_eq!(count, 4);
    assert_eq!(recorder.tokens, produced(&["a", "b", "c", "d"]));
}

#[test]
fn empty_production_returns_zero() {
    let mut registry: CallbackRegistry<TokenRecorder> = CallbackRegistry::new();
    let mut handle = LlamaCppSimple::create(options_for("model.gguf"), Some(9)).unwrap();
    let stream: Vec<String> = Vec::new();
    let (count, recorder) =
        generate(&mut handle, &mut registry, "p", 5, &stream, TokenRecorder::new()).unwrap();
    assert_eq!(count, 0);
    assert!(recorder.tokens.is_empty());
}

#[test]
fn zero_max_tokens_delivers_nothing() {
    let mut registry: CallbackRegistry<TokenRecorder> = CallbackRegistry::new();
    let mut handle = LlamaCppSimple::create(options_for("model.gguf"), Some(9)).unwrap();
    let stream = produced(&["a", "b"]);
    let (count, recorder) =
        generate(&mut handle, &mut registry, "p", 0, &stream, TokenRecorder::new()).unwrap();
    assert_eq!(count, 0);
    assert!(recorder.tokens.is_empty());
}

#[test]
fn null_byte_prompt_is_rejected_before_any_delivery() {
    let mut registry: CallbackRegistry<TokenRecorder> = CallbackRegistry::new();
    let mut handle = LlamaCppSimple::create(options_for("model.gguf"), Some(5)).unwrap();
    let stream = produced(&["a", "b"]);
    let result = generate(
        &mut handle,
        &mut registry,
        "bad\0prompt",
        5,
        &stream,
        TokenRecorder::new(),
    );
    assert_eq!(result.unwrap_err(), EncodingError::EmbeddedNul);
    assert_eq!(registry.len(), 0);
    assert!(!registry.contains(5));
    let (count, recorder) =
        generate(&mut handle, &mut registry, "good prompt", 2, &stream, TokenRecorder::new())
            .unwrap();
    assert_eq!(count, 2);
    assert_eq!(recorder.tokens, stream);
}

#[test]
fn generation_cleans_up_its_registry_entry_on_every_path() {
    let mut registry: CallbackRegistry<TokenRecorder> = CallbackRegistry::new();
    let mut handle = LlamaCppSimple::create(options_for("model.gguf"), Some(11)).unwrap();
    let stream = produced(&["x", "y", "z"]);

    generate(&mut handle, &mut registry, "p", 3, &stream, TokenRecorder::new()).unwrap();
    assert!(!registry.contains(11));

    generate(&mut handle, &mut registry, "p", 3, &stream, TokenRecorder::stopping_after(1))
        .unwrap();
    assert!(!registry.contains(11));

    generate(&mut handle, &mut registry, "p\0", 3, &stream, TokenRecorder::new()).unwrap_err();
    assert!(!registry.contains(11));
}
