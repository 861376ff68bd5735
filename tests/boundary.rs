use sp_jni::{
    exported_symbol, replace_char, settle, throw, BodyOutcome, BoundaryExit, PanicPayload, SpError,
};

#[test]
fn panic_with_str_payload_raises_its_message() {
    let exit = settle(BodyOutcome::Panicked(PanicPayload::Str("boom".to_string())), false, 0i32);
    assert_eq!(
        exit,
        BoundaryExit { value: 0, describe_pending: false, exception: Some("boom".to_string()) }
    );
    let exit = settle(
        BodyOutcome::Panicked(PanicPayload::Str("boom".to_string())),
        false,
        bool::default(),
    );
    assert!(!exit.value);
    assert_eq!(exit.exception.as_deref(), Some("boom"));
}

#[test]
fn panic_with_owned_payload_raises_its_message() {
    let exit = settle(BodyOutcome::Panicked(PanicPayload::Owned("bad 3".to_string())), true, 0i64);
    assert_eq!(exit.value, 0);
    assert!(exit.describe_pending);
    assert_eq!(exit.exception.as_deref(), Some("bad 3"));
}

#[test]
fn panic_with_other_payload_has_fixed_message() {
    let exit = settle(BodyOutcome::<u8>::Panicked(PanicPayload::Other), false, 0);
    assert_eq!(exit.exception.as_deref(), Some("Unknown panic payload type"));
    assert_eq!(exit.value, 0);
}

#[test]
fn error_becomes_exception_and_default() {
    let exit = settle(BodyOutcome::Failed("no method cache".to_string()), true, 0i32);
    assert_eq!(
        exit,
        BoundaryExit {
            value: 0,
            describe_pending: true,
            exception: Some("no method cache".to_string())
        }
    );
}

#[test]
fn returned_value_passes_through() {
    let exit = settle(BodyOutcome::Returned(41i32), true, 0);
    assert_eq!(exit, BoundaryExit { value: 41, describe_pending: false, exception: None });
}

#[test]
fn exported_symbol_name() {
    assert_eq!(exported_symbol("com.example.Native", "add"), "Java_com_example_Native_add");
    assert_eq!(exported_symbol("Top", "run"), "Java_Top_run");
}

#[test]
fn error_messages() {
    assert_eq!(SpError::NullHandle.message(), "point is null or not");
    assert_eq!(SpError::CacheMiss.message(), "no method cache");
    assert_eq!(SpError::ClassNotInit.message(), "class not init");
    assert_eq!(SpError::Message("x y".to_string()).message(), "x y");
}

#[test]
fn throw_carries_text() {
    let r: Result<i32, SpError> = throw("went wrong");
    assert_eq!(r, Err(SpError::Message("went wrong".to_string())));
}

#[test]
fn replace_char_swaps_every_occurrence() {
    assert_eq!(replace_char("a.b.c", '.', '/'), "a/b/c");
    assert_eq!(replace_char("", '.', '/'), "");
    assert_eq!(replace_char("ünï.çode", '.', '_'), "ünï_çode");
}
