use std::collections::HashMap;

use magic_eight_ball::request::{receive, Intake, NO_QUESTION, TEXT_PLAIN};
use magic_eight_ball::resolver::{Action, Event, ResolveError, Resolver};

/// An in-memory answer store that counts what is asked of it.
struct FakeStore {
    entries: HashMap<String, Vec<u8>>,
    fail_get: bool,
    fail_set: bool,
    gets: usize,
    sets: Vec<(String, String)>,
}

impl FakeStore {
    fn new() -> FakeStore {
        FakeStore { entries: HashMap::new(), fail_get: false, fail_set: false, gets: 0, sets: Vec::new() }
    }

    fn with(key: &str, value: &str) -> FakeStore {
        let mut s = FakeStore::new();
        s.entries.insert(key.to_string(), value.as_bytes().to_vec());
        s
    }
}

/// A generator that hands out scripted outputs and records the prompts it was given.
struct FakeGenerator {
    outputs: Vec<Option<String>>,
    prompts: Vec<String>,
}

impl FakeGenerator {
    fn new(outputs: &[Option<&str>]) -> FakeGenerator {
        FakeGenerator {
            outputs: outputs.iter().map(|o| o.map(|s| s.to_string())).collect(),
            prompts: Vec::new(),
        }
    }
}

fn drive(
    mut resolver: Resolver,
    mut action: Action,
    store: &mut FakeStore,
    generator: &mut FakeGenerator,
) -> Result<String, ResolveError> {
    loop {
        let event = match action {
            Action::Finish(outcome) => return outcome,
            Action::Lookup(key) => {
                store.gets += 1;
                if store.fail_get {
                    Event::LookupFailed
                } else {
                    match store.entries.get(&key) {
                        Some(v) => Event::Found(v.clone()),
                        None => Event::Missing,
                    }
                }
            }
            Action::Generate(prompt) => {
                generator.prompts.push(prompt);
                match generator.outputs.remove(0) {
                    Some(text) => Event::Generated(text),
                    None => Event::GenerationFailed,
                }
            }
            Action::Save(key, value) => {
                store.sets.push((key.clone(), value.clone()));
                if store.fail_set {
                    Event::SaveFailed
                } else {
                    store.entries.insert(key, value.into_bytes());
                    Event::Saved
                }
            }
        };
        assert!(resolver.awaits(&event));
        action = resolver.step(event);
    }
}

fn resolve(
    question: &str,
    store: &mut FakeStore,
    generator: &mut FakeGenerator,
) -> Result<String, ResolveError> {
    let (resolver, action) = Resolver::start(question.to_string());
    drive(resolver, action, store, generator)
}

#[test]
fn empty_body_touches_nothing() {
    match receive(Vec::new()) {
        Intake::Reply(resp) => {
            assert_eq!(resp.status, 200);
            assert_eq!(resp.body, NO_QUESTION);
            assert_eq!(resp.body, "No question provided");
            assert_eq!(resp.content_type, TEXT_PLAIN);
        }
        _ => panic!("an empty body must be answered at once"),
    }
}

#[test]
fn invalid_utf8_body_is_rejected() {
    match receive(vec![0x66, 0xff, 0x3f]) {
        Intake::Reject(e) => assert_eq!(e, ResolveError::InvalidInput),
        _ => panic!("a body that is not UTF-8 must be rejected"),
    }
}

#[test]
fn body_starts_a_lookup_under_the_question() {
    match receive("Will it rain".as_bytes().to_vec()) {
        Intake::Resolve(resolver, Action::Lookup(key)) => {
            assert_eq!(key, "Will it rain");
            assert_eq!(resolver.question(), "Will it rain");
            assert!(!resolver.is_finished());
        }
        _ => panic!("a question must start with a lookup"),
    }
}

#[test]
fn cache_hit_has_no_side_effects() {
    let mut store = FakeStore::with("What is my future?", "Yes.");
    let mut generator = FakeGenerator::new(&[]);
    assert_eq!(resolve("What is my future?", &mut store, &mut generator), Ok("Yes.".to_string()));
    assert_eq!(resolve("What is my future?", &mut store, &mut generator), Ok("Yes.".to_string()));
    assert_eq!(store.gets, 2);
    assert!(store.sets.is_empty());
    assert!(generator.prompts.is_empty());
}

#[test]
fn placeholder_triggers_regeneration() {
    let mut store = FakeStore::with("Will it rain?", "Ask again later.");
    let mut generator = FakeGenerator::new(&[Some("  Answer: Clouds are gathering. ")]);
    assert_eq!(
        resolve("Will it rain?", &mut store, &mut generator),
        Ok("Clouds are gathering.".to_string())
    );
    assert_eq!(generator.prompts.len(), 1);
    assert_eq!(store.sets, vec![("Will it rain?".to_string(), "Clouds are gathering.".to_string())]);
    assert_eq!(store.entries.get("Will it rain?").unwrap(), b"Clouds are gathering.");
}

#[test]
fn fresh_placeholder_is_returned_and_retried_next_time() {
    let mut store = FakeStore::with("Will it rain?", "Ask again later.");
    let mut generator = FakeGenerator::new(&[Some("Answer: Ask again later."), Some("Answer: No.")]);
    assert_eq!(resolve("Will it rain?", &mut store, &mut generator), Ok("Ask again later.".to_string()));
    assert_eq!(resolve("Will it rain?", &mut store, &mut generator), Ok("No.".to_string()));
    assert_eq!(generator.prompts.len(), 2);
    assert_eq!(resolve("Will it rain?", &mut store, &mut generator), Ok("No.".to_string()));
    assert_eq!(generator.prompts.len(), 2);
    assert_eq!(store.sets.len(), 2);
}

#[test]
fn miss_triggers_generation_and_persistence() {
    let mut store = FakeStore::new();
    let mut generator = FakeGenerator::new(&[Some("\n Answer:  Without a doubt. \n")]);
    assert_eq!(resolve("Will I succeed?", &mut store, &mut generator), Ok("Without a doubt.".to_string()));
    assert_eq!(generator.prompts.len(), 1);
    assert_eq!(store.sets, vec![("Will I succeed?".to_string(), "Without a doubt.".to_string())]);
}

#[test]
fn prompt_gets_question_mark_but_key_does_not() {
    let mut store = FakeStore::new();
    let mut generator = FakeGenerator::new(&[Some("Answer: Quite sure.")]);
    assert_eq!(resolve("are you sure", &mut store, &mut generator), Ok("Quite sure.".to_string()));
    assert!(generator.prompts[0].ends_with("are you sure?[/INST]"));
    assert!(generator.prompts[0].starts_with("<s>[INST] <<SYS>>"));
    assert_eq!(store.sets[0].0, "are you sure");
    assert!(store.entries.contains_key("are you sure"));
    assert!(!store.entries.contains_key("are you sure?"));
}

#[test]
fn lookup_failure_is_store_unavailable() {
    let mut store = FakeStore::new();
    store.fail_get = true;
    let mut generator = FakeGenerator::new(&[Some("Answer: Yes.")]);
    assert_eq!(resolve("Will it rain?", &mut store, &mut generator), Err(ResolveError::StoreUnavailable));
    assert!(generator.prompts.is_empty());
    assert!(store.sets.is_empty());
}

#[test]
fn generation_failure_writes_nothing() {
    let mut store = FakeStore::new();
    let mut generator = FakeGenerator::new(&[None]);
    assert_eq!(resolve("Will it rain?", &mut store, &mut generator), Err(ResolveError::GenerationFailed));
    assert_eq!(generator.prompts.len(), 1);
    assert!(store.sets.is_empty());
}

#[test]
fn save_failure_is_store_unavailable() {
    let mut store = FakeStore::new();
    store.fail_set = true;
    let mut generator = FakeGenerator::new(&[Some("Answer: Yes.")]);
    assert_eq!(resolve("Will it rain?", &mut store, &mut generator), Err(ResolveError::StoreUnavailable));
    assert_eq!(store.sets.len(), 1);
}

#[test]
fn undecodable_stored_value_is_store_unavailable() {
    let mut store = FakeStore::new();
    store.entries.insert("Will it rain?".to_string(), vec![0xc3, 0x28]);
    let mut generator = FakeGenerator::new(&[Some("Answer: Yes.")]);
    assert_eq!(resolve("Will it rain?", &mut store, &mut generator), Err(ResolveError::StoreUnavailable));
    assert!(generator.prompts.is_empty());
}

#[test]
fn finished_resolver_awaits_nothing() {
    let (mut resolver, _) = Resolver::start("Hello?".to_string());
    assert!(resolver.awaits(&Event::Missing));
    assert!(!resolver.awaits(&Event::Saved));
    match resolver.step(Event::LookupFailed) {
        Action::Finish(Err(e)) => assert_eq!(e, ResolveError::StoreUnavailable),
        _ => panic!("a failed lookup ends the resolution"),
    }
    assert!(resolver.is_finished());
    assert!(!resolver.awaits(&Event::Missing));
}
