use threadrunner::model::{load_backend, split_words, BackendKind, BoxedModelBackend, DummyBackend};
use threadrunner::{Error, ModelBackend};

#[test]
fn dummy_load_and_stream() {
    let mut backend = DummyBackend::load("/dev/null").unwrap();

    backend.prompt("lorem ipsum dolor sit amet").unwrap();

    let mut tokens = Vec::new();
    while let Some(token) = backend.next_token().unwrap() {
        tokens.push(token);
    }

    assert_eq!(tokens.len(), 30);

    assert_eq!(tokens[0], "lorem");
    assert_eq!(tokens[1], "ipsum");
    assert_eq!(tokens[2], "dolor");

    let prompt_tokens = &tokens[25..30];
    assert_eq!(prompt_tokens[0], "lorem.");
    assert_eq!(prompt_tokens[1], "ipsum.");
    assert_eq!(prompt_tokens[2], "dolor.");
    assert_eq!(prompt_tokens[3], "sit.");
    assert_eq!(prompt_tokens[4], "amet.");

    assert_eq!(backend.next_token().unwrap(), None);
}

#[test]
fn factory_loads_dummy_backend() {
    let mut backend = load_backend(BackendKind::Dummy, "/dev/null").unwrap();

    backend.prompt("test").unwrap();
    let token = backend.next_token().unwrap();
    assert!(token.is_some());
}

#[test]
fn factory_refuses_native_kind() {
    match load_backend(BackendKind::Native, "/nonexistent.gguf") {
        Err(Error::ModelLoad(_)) => {}
        _ => panic!("expected a model load error"),
    }
}

#[test]
fn next_token_after_end_stays_none() {
    let mut backend = DummyBackend::load("/dev/null").unwrap();
    backend.prompt("a").unwrap();
    let mut count = 0;
    while backend.next_token().unwrap().is_some() {
        count += 1;
    }
    assert_eq!(count, 26);
    assert_eq!(backend.next_token().unwrap(), None);
    assert_eq!(backend.next_token().unwrap(), None);
    backend.prompt("b c").unwrap();
    assert_eq!(backend.next_token().unwrap(), Some("b.".to_string()));
    assert_eq!(backend.next_token().unwrap(), Some("c.".to_string()));
    assert_eq!(backend.next_token().unwrap(), None);
}

#[test]
fn empty_prompt_adds_nothing() {
    let mut backend = DummyBackend::load("/dev/null").unwrap();
    backend.prompt("").unwrap();
    backend.prompt("   \t\n ").unwrap();
    let mut count = 0;
    while backend.next_token().unwrap().is_some() {
        count += 1;
    }
    assert_eq!(count, 25);
}

#[test]
fn dummy_unload_clears_tokens() {
    let mut backend = DummyBackend::load("/dev/null").unwrap();
    backend.prompt("x y").unwrap();
    backend.unload().unwrap();
    assert_eq!(backend.next_token().unwrap(), None);
}

#[test]
fn split_words_handles_mixed_whitespace_and_utf8() {
    let words = split_words("  héllo\twörld \u{3000}✓ end  ");
    assert_eq!(words, vec!["héllo", "wörld", "✓", "end"]);
    assert!(split_words("").is_empty());
    assert_eq!(split_words("one"), vec!["one"]);
}

#[test]
fn boxed_backend_after_unload_refuses_work() {
    let dummy = DummyBackend::load("/dev/null").unwrap();
    let mut boxed = BoxedModelBackend::new(Box::new(dummy));
    assert_eq!(boxed.next_token().unwrap(), Some("lorem".to_string()));
    boxed.unload().unwrap();
    assert_eq!(boxed.prompt("again"), Err(Error::Unknown));
    assert_eq!(boxed.next_token(), Err(Error::Unknown));
    assert_eq!(boxed.unload(), Ok(()));
}

#[test]
fn factory_dummy_yields_seed_then_prompt_words() {
    let mut backend = load_backend(BackendKind::Dummy, "/dev/null").unwrap();
    backend.prompt("lorem ipsum").unwrap();
    let mut tokens = Vec::new();
    while let Some(t) = backend.next_token().unwrap() {
        tokens.push(t);
    }
    assert_eq!(tokens.len(), 27);
    assert_eq!(tokens[0], "lorem");
    assert_eq!(tokens[24], "nostrud");
    assert_eq!(&tokens[25..], &["lorem.".to_string(), "ipsum.".to_string()]);
    assert_eq!(backend.unload(), Ok(()));
    assert_eq!(backend.unload(), Ok(()));
}
