use std::cell::Cell;
use touchhle::audio_toolbox::extended_audio_file::{ExtAudioFileHostObject, State as ExtState};
use touchhle::audio_toolbox::{LazyALContext, State};

#[test]
fn try_get_context_creates_the_context_once() {
    let mut lazy: LazyALContext<u32> = LazyALContext::new();
    let calls = Cell::new(0u32);
    let first = lazy.try_get_context(|| -> Result<u32, String> {
        calls.set(calls.get() + 1);
        Ok(7)
    });
    assert_eq!(first.copied(), Some(7));
    let second = lazy.try_get_context(|| -> Result<u32, String> {
        calls.set(calls.get() + 1);
        Ok(8)
    });
    assert_eq!(second.copied(), Some(7));
    assert_eq!(calls.get(), 1);
}

#[test]
fn try_get_context_failure_leaves_nothing_and_is_retried() {
    let mut lazy: LazyALContext<u32> = LazyALContext::new();
    let failed = lazy.try_get_context(|| -> Result<u32, String> { Err("no device".to_string()) });
    assert!(failed.is_none());
    let retried = lazy.try_get_context(|| -> Result<u32, String> { Ok(3) });
    assert_eq!(retried.copied(), Some(3));
}

#[test]
fn try_get_context_returns_the_stored_context_for_changes() {
    let mut lazy: LazyALContext<u32> = LazyALContext::new();
    *lazy.try_get_context(|| -> Result<u32, String> { Ok(1) }).unwrap() = 10;
    let again = lazy.try_get_context(|| -> Result<u32, String> { Ok(2) });
    assert_eq!(again.copied(), Some(10));
}

#[test]
fn get_context_creates_or_reuses() {
    let mut lazy: LazyALContext<u32> = LazyALContext::new();
    assert_eq!(*lazy.get_context(|| -> Result<u32, String> { Ok(5) }), 5);
    assert_eq!(*lazy.get_context(|| -> Result<u32, String> { Err("unused".to_string()) }), 5);
}

#[test]
fn make_al_context_current_hands_the_context_to_make_current() {
    let mut lazy: LazyALContext<u32> = LazyALContext::new();
    let guard = lazy.make_al_context_current(|| -> Result<u32, String> { Ok(4) }, |c: &u32| *c * 100);
    assert_eq!(guard, 400);
    let guard = lazy.make_al_context_current(|| -> Result<u32, String> { Ok(9) }, |c: &u32| *c + 1);
    assert_eq!(guard, 5);
}

#[test]
fn framework_state_starts_empty_and_shares_its_context() {
    let mut state: State<u32> = State::new();
    assert!(state.ext_audio_file.extended_audio_files.is_empty());
    let guard = state.make_al_context_current(|| -> Result<u32, String> { Ok(11) }, |c: &u32| *c);
    assert_eq!(guard, 11);
    let guard = state.al_context.make_al_context_current(|| -> Result<u32, String> { Ok(12) }, |c: &u32| *c);
    assert_eq!(guard, 11);
}

#[test]
fn state_get_gives_the_extended_audio_file_state() {
    let mut state: State<u32> = State::new();
    let host = ExtAudioFileHostObject { guest_audio_file: 0x2000, client_data_format: None, current_bytes_read: 0 };
    ExtState::get(&mut state).register(0x1000, host);
    assert_eq!(state.ext_audio_file.extended_audio_files.get(&0x1000), Some(&host));
}

#[test]
fn default_states_are_empty() {
    let mut state: State<u32> = State::default();
    assert!(state.ext_audio_file.extended_audio_files.is_empty());
    assert!(ExtState::default().extended_audio_files.is_empty());
    let mut lazy: LazyALContext<u32> = LazyALContext::default();
    assert!(lazy.try_get_context(|| -> Result<u32, String> { Err(String::new()) }).is_none());
    assert!(state.al_context.try_get_context(|| -> Result<u32, String> { Err(String::new()) }).is_none());
}

#[test]
fn get_context_gives_what_try_get_context_gives() {
    let mut a: LazyALContext<u32> = LazyALContext::new();
    let mut b: LazyALContext<u32> = LazyALContext::new();
    let from_try = *a.try_get_context(|| -> Result<u32, String> { Ok(6) }).expect("context");
    let from_get = *b.get_context(|| -> Result<u32, String> { Ok(6) });
    assert_eq!(from_try, from_get);
    assert_eq!(a.try_get_context(|| -> Result<u32, String> { Ok(0) }).copied(), Some(6));
    assert_eq!(b.try_get_context(|| -> Result<u32, String> { Ok(0) }).copied(), Some(6));
}
