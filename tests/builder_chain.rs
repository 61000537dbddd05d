use android_intent::IntentBuilder;
use jni::errors::Error;
use jni::objects::JObject;

fn field_not_found() -> Error {
    Error::FieldNotFound {
        name: "ACTION_VIEW".to_string(),
        sig: "Ljava/lang/String;".to_string(),
    }
}

#[test]
fn failed_construct_is_reported_at_dispatch() {
    let result = IntentBuilder::from_error(Error::JavaException)
        .with_type("text/plain")
        .start_activity(JObject::null()).1;
    assert!(matches!(result, Err(Error::JavaException)));
}

#[test]
fn failed_chain_keeps_first_error_through_every_mutator() {
    let result = IntentBuilder::from_error(field_not_found())
        .with_class_name("com.example", "Target")
        .with_extra("android.intent.extra.TEXT", "Hello World!")
        .into_chooser()
        .into_chooser_with_title(Some("Share"))
        .with_type("text/plain")
        .start_activity(JObject::null()).1;
    match result {
        Err(Error::FieldNotFound { name, sig }) => {
            assert_eq!(name, "ACTION_VIEW");
            assert_eq!(sig, "Ljava/lang/String;");
        }
        _ => panic!("the first error was not kept"),
    }
}

#[test]
fn repeated_calls_on_failed_chain_keep_the_error() {
    let mut builder = IntentBuilder::from_error(Error::NullPtr("call_method obj argument"));
    for _ in 0..5 {
        builder = builder.with_extra("key", "value");
    }
    let result = builder.start_activity(JObject::null()).1;
    assert!(matches!(result, Err(Error::NullPtr("call_method obj argument"))));
}

#[test]
fn failed_chain_with_chooser_title_keeps_error() {
    let result = IntentBuilder::from_error(Error::TryLock)
        .into_chooser_with_title(None)
        .with_class_name("com.example", "Target")
        .start_activity(JObject::null()).1;
    assert!(matches!(result, Err(Error::TryLock)));
}

#[test]
fn failed_chain_without_session_hands_back_none() {
    let (session, result) = IntentBuilder::from_error(Error::InvalidCtorReturn)
        .with_extra("android.intent.extra.TEXT", "Hello World!")
        .start_activity(JObject::null());
    assert!(session.is_none());
    assert!(matches!(result, Err(Error::InvalidCtorReturn)));
}
