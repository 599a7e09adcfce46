use edgerunner::error::GenerationError;
use edgerunner::generation::{Action, Event, Generation, Phase};
use edgerunner::which::{ModelFamily, Which};

fn sampled(token: u32, text: &str) -> Event {
    Event::Sampled { token, piece: text.as_bytes().to_vec() }
}

#[test]
fn cancellation_before_prompt_forward_runs_nothing() {
    let mut g = Generation::new(ModelFamily::new(Which::Mistral7bInstruct, true), 10, 64).unwrap();
    let a = g.step(Event::Encoded { tokens: vec![1, 2, 3], eos: Some(2) }, true);
    assert!(matches!(a, Action::Abort(GenerationError::Cancelled)));
    assert_eq!(g.phase(), Phase::Cancelled);
    assert!(!g.is_running());
}

#[test]
fn eos_stops_the_loop_early() {
    let mut g = Generation::new(ModelFamily::new(Which::Zephyr7bBeta, true), 10, 64).unwrap();
    let a = g.step(Event::Encoded { tokens: vec![5, 6, 7], eos: Some(2) }, false);
    match a {
        Action::Forward { tokens, position, window, emit } => {
            assert_eq!(tokens, vec![5, 6, 7]);
            assert_eq!(position, 0);
            assert!(window.is_empty());
            assert!(emit.is_none());
        }
        _ => panic!("expected a forward pass"),
    }
    let a = g.step(sampled(40, "Hi"), false);
    match a {
        Action::Forward { tokens, position, window, emit } => {
            assert_eq!(tokens, vec![40]);
            assert_eq!(position, 3);
            assert_eq!(window, vec![40]);
            assert_eq!(emit, Some("Hi".to_string()));
        }
        _ => panic!("expected a forward pass"),
    }
    let a = g.step(sampled(41, " there"), false);
    match a {
        Action::Forward { position, window, .. } => {
            assert_eq!(position, 4);
            assert_eq!(window, vec![40, 41]);
        }
        _ => panic!("expected a forward pass"),
    }
    let a = g.step(sampled(2, ""), false);
    match a {
        Action::Complete { emit, rest, result } => {
            assert!(emit.is_none());
            assert!(rest.is_none());
            assert_eq!(result.text, "Hi there");
            assert_eq!(result.prompt_tokens, 3);
            assert_eq!(result.sampled, 2);
        }
        _ => panic!("expected completion"),
    }
    assert_eq!(g.phase(), Phase::Completed);
}

#[test]
fn budget_bounds_the_decode_steps() {
    let mut g = Generation::new(ModelFamily::new(Which::OpenChat35, true), 3, 1).unwrap();
    g.step(Event::Encoded { tokens: vec![1], eos: None }, false);
    g.step(sampled(10, "a"), false);
    let a = g.step(sampled(11, "b"), false);
    match a {
        Action::Forward { position, window, .. } => {
            assert_eq!(position, 2);
            assert_eq!(window, vec![11]);
        }
        _ => panic!("expected a forward pass"),
    }
    match g.step(sampled(12, "c"), false) {
        Action::Complete { result, .. } => {
            assert_eq!(result.text, "abc");
            assert_eq!(result.sampled, 2);
        }
        _ => panic!("expected completion"),
    }
}

#[test]
fn single_token_budget_completes_after_prompt() {
    let mut g = Generation::new(ModelFamily::new(Which::Mixtral, true), 1, 64).unwrap();
    g.step(Event::Encoded { tokens: vec![1, 2], eos: Some(2) }, false);
    match g.step(sampled(9, "x"), false) {
        Action::Complete { emit, result, .. } => {
            assert_eq!(emit, Some("x".to_string()));
            assert_eq!(result.sampled, 0);
            assert_eq!(result.prompt_tokens, 2);
        }
        _ => panic!("expected completion"),
    }
}

#[test]
fn split_character_is_flushed_at_the_end() {
    let e = "é".as_bytes();
    let mut g = Generation::new(ModelFamily::new(Which::Mistral7b, true), 2, 64).unwrap();
    g.step(Event::Encoded { tokens: vec![1], eos: None }, false);
    match g.step(Event::Sampled { token: 3, piece: vec![e[0]] }, false) {
        Action::Forward { emit, .. } => assert!(emit.is_none()),
        _ => panic!("expected a forward pass"),
    }
    match g.step(Event::Sampled { token: 4, piece: vec![e[1]] }, false) {
        Action::Complete { emit, result, .. } => {
            assert_eq!(emit, Some("é".to_string()));
            assert_eq!(result.text, "é");
        }
        _ => panic!("expected completion"),
    }
}

#[test]
fn cancellation_during_decoding_discards_output() {
    let mut g = Generation::new(ModelFamily::new(Which::Mistral7bInstruct, true), 10, 64).unwrap();
    g.step(Event::Encoded { tokens: vec![1], eos: Some(2) }, false);
    g.step(sampled(10, "a"), false);
    let a = g.step(sampled(11, "b"), true);
    assert!(matches!(a, Action::Abort(GenerationError::Cancelled)));
    assert_eq!(g.phase(), Phase::Cancelled);
}

#[test]
fn cancellation_right_after_prompt_forward() {
    let mut g = Generation::new(ModelFamily::new(Which::Mistral7bInstruct, true), 10, 64).unwrap();
    g.step(Event::Encoded { tokens: vec![1], eos: Some(2) }, false);
    let a = g.step(sampled(10, "a"), true);
    assert!(matches!(a, Action::Abort(GenerationError::Cancelled)));
}

#[test]
fn encoding_and_inference_failures() {
    let mut g = Generation::new(ModelFamily::new(Which::Mistral7bInstruct, true), 10, 64).unwrap();
    let a = g.step(Event::EncodeFailed, false);
    assert!(matches!(a, Action::Abort(GenerationError::EncodingFailure)));
    assert_eq!(g.phase(), Phase::Failed);

    let mut g = Generation::new(ModelFamily::new(Which::Mistral7bInstruct, true), 10, 64).unwrap();
    g.step(Event::Encoded { tokens: vec![1], eos: Some(2) }, false);
    let a = g.step(Event::InferenceFailed, false);
    assert!(matches!(a, Action::Abort(GenerationError::InferenceFailure)));
    assert_eq!(g.phase(), Phase::Failed);
}

#[test]
fn long_prompt_is_trimmed_before_forward() {
    let mut g = Generation::new(ModelFamily::new(Which::Mistral7bInstruct, true), 101, 64).unwrap();
    let tokens: Vec<u32> = (0..4050).collect();
    match g.step(Event::Encoded { tokens, eos: Some(2) }, false) {
        Action::Forward { tokens, position, .. } => {
            assert_eq!(tokens.len(), 4096 - 101 - 10);
            assert_eq!(tokens[0], 4050 - 3985);
            assert_eq!(position, 0);
        }
        _ => panic!("expected a forward pass"),
    }
}

#[test]
fn small_context_trims_with_margin() {
    let mut g = Generation::with_max_context(ModelFamily::new(Which::Zephyr7bBeta, true), 6, 8, 30).unwrap();
    let tokens: Vec<u32> = (0..28).collect();
    match g.step(Event::Encoded { tokens, eos: None }, false) {
        Action::Forward { tokens, .. } => {
            assert_eq!(tokens, (14..28).collect::<Vec<u32>>());
        }
        _ => panic!("expected a forward pass"),
    }
}

#[test]
fn unavailable_family_is_refused() {
    let r = Generation::new(ModelFamily::new(Which::Mixtral, false), 10, 64);
    assert!(matches!(r, Err(GenerationError::ModelUnavailable)));
}

#[test]
fn prompt_trim_uses_requested_length() {
    let mut g = Generation::new(ModelFamily::new(Which::Mistral7bInstruct, true), 100, 64).unwrap();
    let tokens: Vec<u32> = (0..5000).collect();
    match g.step(Event::Encoded { tokens, eos: Some(2) }, false) {
        Action::Forward { tokens, .. } => {
            assert_eq!(tokens.len(), 3986);
            assert_eq!(tokens[0], 5000 - 3986);
        }
        _ => panic!("expected a forward pass"),
    }
}

#[test]
fn cancellation_on_last_step_wins_over_budget() {
    let mut g = Generation::new(ModelFamily::new(Which::Mistral7bInstruct, true), 2, 64).unwrap();
    g.step(Event::Encoded { tokens: vec![1], eos: Some(2) }, false);
    g.step(sampled(10, "a"), false);
    let a = g.step(sampled(11, "b"), true);
    assert!(matches!(a, Action::Abort(GenerationError::Cancelled)));
    assert_eq!(g.phase(), Phase::Cancelled);
}

#[test]
fn end_marker_wins_over_cancellation() {
    let mut g = Generation::new(ModelFamily::new(Which::Mistral7bInstruct, true), 10, 64).unwrap();
    g.step(Event::Encoded { tokens: vec![1], eos: Some(2) }, false);
    g.step(sampled(10, "a"), false);
    match g.step(sampled(2, ""), true) {
        Action::Complete { result, .. } => assert_eq!(result.sampled, 1),
        _ => panic!("expected completion"),
    }
}
