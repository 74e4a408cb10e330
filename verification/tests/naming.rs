use polling_async_trait::naming::{
    async_method_name, default_future_name, future_name, join_future_name, strip_poll_prefix,
};

#[test]
fn strips_poll_prefix() {
    assert_eq!(strip_poll_prefix("poll_basic"), Some("basic"));
    assert_eq!(strip_poll_prefix("poll_"), Some(""));
    assert_eq!(strip_poll_prefix("poll"), None);
    assert_eq!(strip_poll_prefix("pollbasic"), None);
    assert_eq!(strip_poll_prefix("basic"), None);
    assert_eq!(strip_poll_prefix("Poll_basic"), None);
    assert_eq!(strip_poll_prefix("poll_poll_x"), Some("poll_x"));
    assert_eq!(strip_poll_prefix(""), None);
}

#[test]
fn joins_future_name() {
    assert_eq!(join_future_name("ExampleTrait", "Basic"), "ExampleTraitBasic");
    assert_eq!(join_future_name("", "X"), "X");
}

#[test]
fn default_future_name_is_trait_name_and_class_case() {
    assert_eq!(default_future_name("ExampleTrait", "basic"), "ExampleTraitBasic");
    assert_eq!(default_future_name("ExampleTrait", "close_ref"), "ExampleTraitCloseRef");
    assert_eq!(default_future_name("ExampleTrait", "pin_method"), "ExampleTraitPinMethod");
    assert_eq!(default_future_name("SimpleAsync", "flush"), "SimpleAsyncFlush");
    assert_eq!(default_future_name("T", "works"), "TWork");
}

#[test]
fn async_method_name_prefers_given_name() {
    assert_eq!(async_method_name(&Some("do_work".to_string()), "poll_work"), Some("do_work".to_string()));
    assert_eq!(async_method_name(&Some("do_work".to_string()), "work"), Some("do_work".to_string()));
    assert_eq!(async_method_name(&None, "poll_work"), Some("work".to_string()));
    assert_eq!(async_method_name(&None, "work"), None);
}

#[test]
fn future_name_prefers_given_name() {
    assert_eq!(future_name(&Some("DoWork".to_string()), "Tr", "poll_work"), Some("DoWork".to_string()));
    assert_eq!(future_name(&Some("DoWork".to_string()), "Tr", "work"), Some("DoWork".to_string()));
    assert_eq!(future_name(&None, "ExampleTrait", "poll_close"), Some("ExampleTraitClose".to_string()));
    assert_eq!(future_name(&None, "Tr", "work"), None);
}
