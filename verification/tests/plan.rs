use polling_async_trait::meta::{AsyncMethodType, MetaError};
use polling_async_trait::model::{
    AttrModel, FnArgModel, GenericArgModel, MethodModel, NestedMetaModel, PatModel, PathArgsModel,
    ReturnTypeModel, SegmentModel, TraitItemModel, TraitModel, TypeModel,
};
use polling_async_trait::output_type::OutputTypeError;
use polling_async_trait::plan::{plan_async_poll_trait, plan_method, MacroError, MacroErrorKind};
use polling_async_trait::receiver::PollMethodReceiverType;
use polling_async_trait::shape::{AsyncReceiver, FutureInner};

fn seg(ident: &str, arguments: PathArgsModel) -> SegmentModel {
    SegmentModel { ident: ident.to_string(), arguments }
}

fn path(segments: Vec<SegmentModel>) -> TypeModel {
    TypeModel::Path { qself: false, leading_colon: false, segments }
}

fn poll_of(handle: usize) -> ReturnTypeModel {
    ReturnTypeModel::Type(path(vec![seg(
        "Poll",
        PathArgsModel::AngleBracketed(vec![GenericArgModel::Type {
            handle,
            ty: path(vec![seg("i32", PathArgsModel::NoArguments)]),
        }]),
    )]))
}

fn cx_arg() -> FnArgModel {
    FnArgModel::Typed {
        pat: PatModel::Ident { by_ref: false, has_subpat: false, ident: "cx".to_string() },
        ty: TypeModel::Reference {
            mutable: true,
            elem: Box::new(path(vec![seg("Context", PathArgsModel::AngleBracketed(vec![GenericArgModel::Other]))])),
        },
    }
}

fn shared() -> Vec<FnArgModel> {
    vec![FnArgModel::Receiver { reference: true, mutable: false }, cx_arg()]
}

fn exclusive() -> Vec<FnArgModel> {
    vec![FnArgModel::Receiver { reference: true, mutable: true }, cx_arg()]
}

fn pinned() -> Vec<FnArgModel> {
    let self_ty = path(vec![seg("Self", PathArgsModel::NoArguments)]);
    let pin = path(vec![seg(
        "Pin",
        PathArgsModel::AngleBracketed(vec![GenericArgModel::Type {
            handle: 99,
            ty: TypeModel::Reference { mutable: true, elem: Box::new(self_ty) },
        }]),
    )]);
    vec![
        FnArgModel::Typed {
            pat: PatModel::Ident { by_ref: false, has_subpat: false, ident: "self".to_string() },
            ty: pin,
        },
        cx_arg(),
    ]
}

fn bare_async() -> AttrModel {
    AttrModel::Path { ident: Some("async_method".to_string()) }
}

fn async_with(nested: Vec<NestedMetaModel>) -> AttrModel {
    AttrModel::List { ident: Some("async_method".to_string()), nested }
}

fn owned() -> AttrModel {
    async_with(vec![NestedMetaModel::Path { ident: Some("owned".to_string()) }])
}

fn method(ident: &str, attrs: Vec<AttrModel>, inputs: Vec<FnArgModel>, output: ReturnTypeModel) -> TraitItemModel {
    TraitItemModel::Method(MethodModel { ident: ident.to_string(), attrs, inputs, output })
}

/// The trait of the crate's documentation.
fn example_trait() -> TraitModel {
    TraitModel {
        ident: "ExampleTrait".to_string(),
        items: vec![
            method("poll_basic", vec![bare_async()], exclusive(), poll_of(0)),
            method("poll_ref_method", vec![bare_async()], shared(), poll_of(1)),
            method("poll_pin_method", vec![bare_async()], pinned(), poll_of(2)),
            method("poll_close", vec![owned()], exclusive(), poll_of(3)),
            method("poll_close_ref", vec![owned()], shared(), poll_of(4)),
            method("poll_close_pinned", vec![owned()], pinned(), poll_of(5)),
            method(
                "poll_work",
                vec![async_with(vec![
                    NestedMetaModel::NameValueStr { ident: Some("method_name".to_string()), value: "do_work".to_string() },
                    NestedMetaModel::NameValueStr { ident: Some("future_name".to_string()), value: "DoWork".to_string() },
                ])],
                exclusive(),
                poll_of(6),
            ),
        ],
    }
}

#[test]
fn documented_example_trait() {
    let plans = plan_async_poll_trait(&example_trait()).unwrap();
    let names: Vec<(&str, &str)> =
        plans.iter().map(|p| (p.async_method_name.as_str(), p.future_name.as_str())).collect();
    assert_eq!(
        names,
        vec![
            ("basic", "ExampleTraitBasic"),
            ("ref_method", "ExampleTraitRefMethod"),
            ("pin_method", "ExampleTraitPinMethod"),
            ("close", "ExampleTraitClose"),
            ("close_ref", "ExampleTraitCloseRef"),
            ("close_pinned", "ExampleTraitClosePinned"),
            ("do_work", "DoWork"),
        ]
    );
    for (k, p) in plans.iter().enumerate() {
        assert_eq!(p.item_index, k);
        assert_eq!(p.attr_index, 0);
        assert_eq!(p.output, k);
    }
    assert_eq!(plans[0].ty, AsyncMethodType::Ref);
    assert_eq!(plans[0].receiver, PollMethodReceiverType::MutRef);
    assert_eq!(plans[0].shape.receiver, AsyncReceiver::Exclusive);
    assert_eq!(plans[1].shape.receiver, AsyncReceiver::Shared);
    assert_eq!(plans[2].shape.receiver, AsyncReceiver::Pinned);
    assert_eq!(plans[2].receiver, PollMethodReceiverType::Pinned);
    for p in &plans[3..6] {
        assert_eq!(p.ty, AsyncMethodType::Owned);
        assert_eq!(p.shape.receiver, AsyncReceiver::ByValue);
        assert_eq!(p.shape.inner, FutureInner::Owned);
    }
    assert_eq!(plans[5].receiver, PollMethodReceiverType::Pinned);
}

#[test]
fn simple_async_example_trait() {
    let model = TraitModel {
        ident: "SimpleAsync".to_string(),
        items: vec![
            method("poll_flush", vec![bare_async()], exclusive(), poll_of(10)),
            method("poll_close", vec![owned()], pinned(), poll_of(11)),
        ],
    };
    let plans = plan_async_poll_trait(&model).unwrap();
    assert_eq!(plans.len(), 2);
    assert_eq!(plans[0].async_method_name, "flush");
    assert_eq!(plans[0].future_name, "SimpleAsyncFlush");
    assert_eq!(plans[1].async_method_name, "close");
    assert_eq!(plans[1].future_name, "SimpleAsyncClose");
    assert_eq!(plans[1].output, 11);
}

#[test]
fn untagged_items_are_left_alone() {
    let model = TraitModel {
        ident: "Tr".to_string(),
        items: vec![
            TraitItemModel::Other,
            method("poll_a", vec![AttrModel::NameValue], exclusive(), poll_of(0)),
            method("helper", vec![], vec![], ReturnTypeModel::Default),
            method("poll_b", vec![AttrModel::NameValue, bare_async()], shared(), poll_of(1)),
        ],
    };
    let plans = plan_async_poll_trait(&model).unwrap();
    assert_eq!(plans.len(), 1);
    assert_eq!(plans[0].item_index, 3);
    assert_eq!(plans[0].attr_index, 1);
    assert_eq!(plans[0].async_method_name, "b");
    assert_eq!(plans[0].future_name, "TrB");
}

#[test]
fn trait_without_tagged_methods_gets_nothing() {
    let model = TraitModel {
        ident: "Tr".to_string(),
        items: vec![method("poll_a", vec![], exclusive(), poll_of(0)), TraitItemModel::Other],
    };
    assert_eq!(plan_async_poll_trait(&model).unwrap().len(), 0);
    let empty = TraitModel { ident: "Tr".to_string(), items: vec![] };
    assert_eq!(plan_async_poll_trait(&empty).unwrap().len(), 0);
}

#[test]
fn first_failing_method_decides_the_error() {
    let model = TraitModel {
        ident: "Tr".to_string(),
        items: vec![
            method("poll_ok", vec![bare_async()], exclusive(), poll_of(0)),
            method("poll_bad", vec![bare_async()], exclusive(), ReturnTypeModel::Default),
            method("no_prefix", vec![bare_async()], exclusive(), poll_of(2)),
        ],
    };
    let err = plan_async_poll_trait(&model).unwrap_err();
    assert_eq!(err, MacroError { item_index: 1, kind: MacroErrorKind::Output(OutputTypeError::NotPoll) });
    assert_eq!(err.message(), "polling method must return a Poll value");
}

#[test]
fn meta_error_is_reported_with_its_attribute() {
    let m = MethodModel {
        ident: "poll_x".to_string(),
        attrs: vec![AttrModel::Unparsable, async_with(vec![NestedMetaModel::Other])],
        inputs: exclusive(),
        output: ReturnTypeModel::Default,
    };
    let err = plan_method("Tr", &m, 4).unwrap().unwrap_err();
    assert_eq!(
        err,
        MacroError { item_index: 4, kind: MacroErrorKind::Meta { attr_index: 1, error: MetaError::UnrecognizedArgument(0) } }
    );
    assert_eq!(err.message(), "Unrecognized meta argument");
}

#[test]
fn output_is_checked_before_receiver() {
    let m = MethodModel {
        ident: "poll_x".to_string(),
        attrs: vec![bare_async()],
        inputs: vec![],
        output: ReturnTypeModel::Type(path(vec![seg("Poll", PathArgsModel::NoArguments)])),
    };
    let err = plan_method("Tr", &m, 0).unwrap().unwrap_err();
    assert_eq!(err.kind, MacroErrorKind::Output(OutputTypeError::MissingOutput));
}

#[test]
fn missing_receiver_is_refused() {
    let m = MethodModel {
        ident: "poll_x".to_string(),
        attrs: vec![bare_async()],
        inputs: vec![cx_arg()],
        output: poll_of(0),
    };
    let err = plan_method("Tr", &m, 0).unwrap().unwrap_err();
    assert_eq!(err.kind, MacroErrorKind::Receiver);
    assert_eq!(err.message(), "poll function must be a method that takes &self, &mut self, or Pin<&mut Self>");
}

#[test]
fn names_need_poll_prefix_unless_both_given() {
    let only_method_name = MethodModel {
        ident: "work".to_string(),
        attrs: vec![async_with(vec![NestedMetaModel::NameValueStr {
            ident: Some("method_name".to_string()),
            value: "do_work".to_string(),
        }])],
        inputs: exclusive(),
        output: poll_of(0),
    };
    let err = plan_method("Tr", &only_method_name, 0).unwrap().unwrap_err();
    assert_eq!(err.kind, MacroErrorKind::MissingPollPrefix);
    assert_eq!(err.message(), "poll method must start with poll_");

    let only_future_name = MethodModel {
        ident: "work".to_string(),
        attrs: vec![async_with(vec![NestedMetaModel::NameValueStr {
            ident: Some("future_name".to_string()),
            value: "DoWork".to_string(),
        }])],
        inputs: exclusive(),
        output: poll_of(0),
    };
    let err = plan_method("Tr", &only_future_name, 0).unwrap().unwrap_err();
    assert_eq!(err.kind, MacroErrorKind::MissingPollPrefix);

    let both = MethodModel {
        ident: "work".to_string(),
        attrs: vec![async_with(vec![
            NestedMetaModel::NameValueStr { ident: Some("method_name".to_string()), value: "do_work".to_string() },
            NestedMetaModel::NameValueStr { ident: Some("future_name".to_string()), value: "DoWork".to_string() },
        ])],
        inputs: exclusive(),
        output: poll_of(0),
    };
    let p = plan_method("Tr", &both, 0).unwrap().unwrap();
    assert_eq!(p.async_method_name, "do_work");
    assert_eq!(p.future_name, "DoWork");
}

#[test]
fn untagged_method_yields_nothing() {
    let m = MethodModel { ident: "poll_x".to_string(), attrs: vec![], inputs: vec![], output: ReturnTypeModel::Default };
    assert!(plan_method("Tr", &m, 0).is_none());
}
