use polling_async_trait::meta::{
    extract_meta, find_async_method_attr, parse_async_method_attr, AsyncMethodType, MetaError,
};
use polling_async_trait::model::{AttrModel, NestedMetaModel};

fn ident(s: &str) -> Option<String> {
    Some(s.to_string())
}

fn doc() -> AttrModel {
    AttrModel::NameValue
}

fn bare_async() -> AttrModel {
    AttrModel::Path { ident: ident("async_method") }
}

fn async_with(nested: Vec<NestedMetaModel>) -> AttrModel {
    AttrModel::List { ident: ident("async_method"), nested }
}

fn name_value(name: &str, value: &str) -> NestedMetaModel {
    NestedMetaModel::NameValueStr { ident: ident(name), value: value.to_string() }
}

#[test]
fn no_async_method_attribute() {
    let mut attrs = vec![doc(), AttrModel::Path { ident: ident("inline") }, AttrModel::Unparsable];
    assert!(extract_meta(&mut attrs).is_none());
    assert_eq!(attrs.len(), 3);
    assert!(matches!(attrs[0], AttrModel::NameValue));
    assert!(matches!(attrs[2], AttrModel::Unparsable));
}

#[test]
fn bare_attribute_is_removed_with_defaults() {
    let mut attrs = vec![doc(), bare_async(), AttrModel::Path { ident: ident("inline") }];
    let meta = extract_meta(&mut attrs).unwrap().unwrap();
    assert_eq!(meta.ty, AsyncMethodType::Ref);
    assert_eq!(meta.async_method_name, None);
    assert_eq!(meta.future_name, None);
    assert_eq!(attrs.len(), 2);
    assert!(matches!(attrs[0], AttrModel::NameValue));
    assert!(matches!(&attrs[1], AttrModel::Path { ident: Some(i) } if i == "inline"));
}

#[test]
fn only_the_first_async_method_attribute_is_removed() {
    let mut attrs = vec![async_with(vec![NestedMetaModel::Path { ident: ident("owned") }]), bare_async()];
    let meta = extract_meta(&mut attrs).unwrap().unwrap();
    assert_eq!(meta.ty, AsyncMethodType::Owned);
    assert_eq!(attrs.len(), 1);
    assert!(matches!(&attrs[0], AttrModel::Path { ident: Some(i) } if i == "async_method"));
}

#[test]
fn async_method_name_value_form_is_not_the_attribute() {
    let attrs = vec![AttrModel::NameValue, AttrModel::List { ident: None, nested: vec![] }];
    assert_eq!(find_async_method_attr(&attrs), None);
    let attrs = vec![AttrModel::List { ident: ident("other"), nested: vec![] }, bare_async()];
    assert_eq!(find_async_method_attr(&attrs), Some(1));
}

#[test]
fn all_options() {
    let attr = async_with(vec![
        NestedMetaModel::Path { ident: ident("owned") },
        name_value("method_name", "do_work"),
        name_value("future_name", "DoWork"),
    ]);
    let meta = parse_async_method_attr(&attr).unwrap();
    assert_eq!(meta.ty, AsyncMethodType::Owned);
    assert_eq!(meta.async_method_name.as_deref(), Some("do_work"));
    assert_eq!(meta.future_name.as_deref(), Some("DoWork"));
}

#[test]
fn later_option_overrides_earlier() {
    let attr = async_with(vec![name_value("method_name", "first"), name_value("method_name", "second")]);
    let meta = parse_async_method_attr(&attr).unwrap();
    assert_eq!(meta.async_method_name.as_deref(), Some("second"));
}

#[test]
fn unknown_name_is_refused() {
    let attr = async_with(vec![name_value("method_name", "x"), name_value("unknown", "y")]);
    assert_eq!(parse_async_method_attr(&attr).unwrap_err(), MetaError::UnrecognizedPath(1));
    let attr = async_with(vec![NestedMetaModel::NameValueStr { ident: None, value: "y".to_string() }]);
    assert_eq!(parse_async_method_attr(&attr).unwrap_err(), MetaError::UnrecognizedPath(0));
}

#[test]
fn unknown_flag_is_refused() {
    let attr = async_with(vec![NestedMetaModel::Path { ident: ident("shared") }]);
    assert_eq!(parse_async_method_attr(&attr).unwrap_err(), MetaError::UnrecognizedPath(0));
    let attr = async_with(vec![NestedMetaModel::Path { ident: None }]);
    assert_eq!(parse_async_method_attr(&attr).unwrap_err(), MetaError::UnrecognizedPath(0));
}

#[test]
fn other_argument_forms_are_refused() {
    let attr = async_with(vec![NestedMetaModel::Path { ident: ident("owned") }, NestedMetaModel::Other]);
    let err = parse_async_method_attr(&attr).unwrap_err();
    assert_eq!(err, MetaError::UnrecognizedArgument(1));
    assert_eq!(err.argument_index(), 1);
    assert_eq!(err.message(), "Unrecognized meta argument");
}

#[test]
fn first_refusal_wins() {
    let attr = async_with(vec![NestedMetaModel::Other, name_value("nope", "x")]);
    assert_eq!(parse_async_method_attr(&attr).unwrap_err(), MetaError::UnrecognizedArgument(0));
}

#[test]
fn refused_attribute_is_still_removed() {
    let mut attrs = vec![async_with(vec![NestedMetaModel::Other]), doc()];
    let res = extract_meta(&mut attrs).unwrap();
    assert_eq!(res.unwrap_err(), MetaError::UnrecognizedArgument(0));
    assert_eq!(attrs.len(), 1);
    assert!(matches!(attrs[0], AttrModel::NameValue));
}
