use vstd::prelude::*;

use crate::meta::{
    find_async_method_attr, first_async_method_attr, parse_async_method_attr, spec_attr_meta,
    AsyncMethodType, MetaError,
};
use crate::model::{MethodModel, TraitItemModel, TraitModel};
use crate::naming::{
    async_method_name, class_case, future_name, spec_async_method_name, spec_future_name,
    spec_strip_poll_prefix, poll_prefix,
};
use crate::output_type::{extract_output_type, return_type_wf, spec_output_type, OutputTypeError};
use crate::receiver::{extract_poll_self_type, spec_receiver_type, PollMethodReceiverType};
use crate::shape::{generation_shape, spec_generation_shape, GenerationShape};

verus! {

/// What to generate for one polling method of the trait.
#[derive(Debug)]
pub struct MethodPlan {
    /// The position of the polling method among the trait's items.
    pub item_index: usize,
    /// The position, among the method's attributes, of the `#[async_method]`
    /// attribute to remove.
    pub attr_index: usize,
    pub async_method_name: String,
    pub future_name: String,
    /// The handle of the future's output type.
    pub output: usize,
    pub ty: AsyncMethodType,
    pub receiver: PollMethodReceiverType,
    pub shape: GenerationShape,
}

/// A method plan with its names as text.
pub struct MethodPlanView {
    pub item_index: usize,
    pub attr_index: usize,
    pub async_method_name: Seq<char>,
    pub future_name: Seq<char>,
    pub output: usize,
    pub ty: AsyncMethodType,
    pub receiver: PollMethodReceiverType,
    pub shape: GenerationShape,
}

impl View for MethodPlan {
    type V = MethodPlanView;

    open spec fn view(&self) -> MethodPlanView {
        MethodPlanView {
            item_index: self.item_index,
            attr_index: self.attr_index,
            async_method_name: self.async_method_name@,
            future_name: self.future_name@,
            output: self.output,
            ty: self.ty,
            receiver: self.receiver,
            shape: self.shape,
        }
    }
}

/// Why a trait's polling method cannot be given an async method.
#[derive(Debug, Clone, Copy, PartialEq, Eq, Structural)]
pub enum MacroErrorKind {
    /// The `#[async_method]` attribute at `attr_index` has a refused argument.
    Meta { attr_index: usize, error: MetaError },
    /// The return type is not `Poll<Output>`.
    Output(OutputTypeError),
    /// The method takes no `&self`, `&mut self` or `self: Pin<&mut Self>`.
    Receiver,
    /// A name is needed from the method's name, which does not start with `poll_`.
    MissingPollPrefix,
}

/// The error for the trait item at `item_index`.
#[derive(Debug, Clone, Copy, PartialEq, Eq, Structural)]
pub struct MacroError {
    pub item_index: usize,
    pub kind: MacroErrorKind,
}

impl MacroError {
    /// The compile error message for this error.
    pub fn message(&self) -> (m: String)
        ensures
            m@ == match self.kind {
                MacroErrorKind::Meta { .. } => "Unrecognized meta argument"@,
                MacroErrorKind::Output(OutputTypeError::NotPoll) => "polling method must return a Poll value"@,
                MacroErrorKind::Output(OutputTypeError::WrongGenericCount) => "Poll return type should have exactly 1 generic parameter"@,
                MacroErrorKind::Output(OutputTypeError::GenericNotType) => "Error parsing generics of Poll type"@,
                MacroErrorKind::Output(OutputTypeError::MissingOutput) => "Poll return type must include the <Output> type"@,
                MacroErrorKind::Receiver => "poll function must be a method that takes &self, &mut self, or Pin<&mut Self>"@,
                MacroErrorKind::MissingPollPrefix => "poll method must start with poll_"@,
            },
    {
        match &self.kind {
            MacroErrorKind::Meta { error, .. } => error.message(),
            MacroErrorKind::Output(e) => e.message(),
            MacroErrorKind::Receiver => String::from_str(
                "poll function must be a method that takes &self, &mut self, or Pin<&mut Self>",
            ),
            MacroErrorKind::MissingPollPrefix => String::from_str("poll method must start with poll_"),
        }
    }
}

/// What the method `m`, at position `i` among the trait's items, yields: none
/// when it has no `#[async_method]` attribute, else its plan or its error.
pub open spec fn spec_plan_method(trait_name: Seq<char>, m: MethodModel, i: usize) -> Option<
    Result<MethodPlanView, MacroError>,
> {
    match first_async_method_attr(m.attrs@) {
        None => None,
        Some(a) => Some(
            match spec_attr_meta(m.attrs@[a]) {
                Err(e) => Err(
                    MacroError { item_index: i, kind: MacroErrorKind::Meta { attr_index: a as usize, error: e } },
                ),
                Ok(meta) => match spec_output_type(m.output) {
                    Err(e) => Err(MacroError { item_index: i, kind: MacroErrorKind::Output(e) }),
                    Ok(output) => match spec_receiver_type(m.inputs@) {
                        None => Err(MacroError { item_index: i, kind: MacroErrorKind::Receiver }),
                        Some(receiver) => match spec_async_method_name(meta.async_method_name, m.ident@) {
                            None => Err(MacroError { item_index: i, kind: MacroErrorKind::MissingPollPrefix }),
                            Some(async_name) => match spec_future_name(meta.future_name, trait_name, m.ident@) {
                                None => Err(MacroError { item_index: i, kind: MacroErrorKind::MissingPollPrefix }),
                                Some(fut_name) => Ok(
                                    MethodPlanView {
                                        item_index: i,
                                        attr_index: a as usize,
                                        async_method_name: async_name,
                                        future_name: fut_name,
                                        output,
                                        ty: meta.ty,
                                        receiver,
                                        shape: spec_generation_shape(meta.ty, receiver),
                                    },
                                ),
                            },
                        },
                    },
                },
            },
        ),
    }
}

/// What the trait item `item`, at position `i`, yields.
pub open spec fn spec_plan_item(trait_name: Seq<char>, item: TraitItemModel, i: usize) -> Option<
    Result<MethodPlanView, MacroError>,
> {
    match item {
        TraitItemModel::Method(m) => spec_plan_method(trait_name, m, i),
        TraitItemModel::Other => None,
    }
}

/// The plans of the items `items`, in order, or the error of the first item
/// that yields one.
pub open spec fn spec_plan_items(trait_name: Seq<char>, items: Seq<TraitItemModel>) -> Result<
    Seq<MethodPlanView>,
    MacroError,
>
    decreases items.len(),
{
    if items.len() == 0 {
        Ok(seq![])
    } else {
        match spec_plan_items(trait_name, items.drop_last()) {
            Err(e) => Err(e),
            Ok(plans) => match spec_plan_item(trait_name, items.last(), (items.len() - 1) as usize) {
                None => Ok(plans),
                Some(Err(e)) => Err(e),
                Some(Ok(p)) => Ok(plans.push(p)),
            },
        }
    }
}

/// The method `m` is one whose return type is read: it carries an
/// `#[async_method]` attribute whose arguments are accepted.
pub open spec fn reads_output_type(m: MethodModel) -> bool {
    &&& first_async_method_attr(m.attrs@) matches Some(a)
    &&& spec_attr_meta(m.attrs@[a]) is Ok
}

/// The return type of item `i` is readable whenever the planning reaches it.
pub open spec fn item_readable(trait_name: Seq<char>, items: Seq<TraitItemModel>, i: int) -> bool {
    match items[i] {
        TraitItemModel::Method(m) => (spec_plan_items(trait_name, items.take(i)) is Ok
            && reads_output_type(m)) ==> return_type_wf(m.output),
        TraitItemModel::Other => true,
    }
}

/// Every return type that the planning reads is readable.
pub open spec fn trait_readable(model: TraitModel) -> bool {
    forall|i: int| 0 <= i < model.items@.len() ==> #[trigger] item_readable(model.ident@, model.items@, i)
}

/// The text view of a planning result.
pub open spec fn plan_result_view(r: Result<Vec<MethodPlan>, MacroError>) -> Result<
    Seq<MethodPlanView>,
    MacroError,
> {
    match r {
        Ok(plans) => Ok(plans@.map_values(|p: MethodPlan| p@)),
        Err(e) => Err(e),
    }
}

/// Plans one method, at position `i` among the trait's items.
pub fn plan_method(trait_name: &str, m: &MethodModel, i: usize) -> (r: Option<Result<MethodPlan, MacroError>>)
    requires
        reads_output_type(*m) ==> return_type_wf(m.output),
    ensures
        match spec_plan_method(trait_name@, *m, i) {
            None => r is None,
            Some(Err(e)) => r matches Some(Err(e2)) && e2 == e,
            Some(Ok(p)) => r matches Some(Ok(p2)) && p2@ == p,
        },
{
    let attr_index = match find_async_method_attr(&m.attrs) {
        None => return None,
        Some(a) => a,
    };
    let meta = match parse_async_method_attr(&m.attrs[attr_index]) {
        Err(error) => {
            return Some(
                Err(MacroError { item_index: i, kind: MacroErrorKind::Meta { attr_index, error } }),
            );
        },
        Ok(meta) => meta,
    };
    let output = match extract_output_type(&m.output) {
        Err(e) => return Some(Err(MacroError { item_index: i, kind: MacroErrorKind::Output(e) })),
        Ok(output) => output,
    };
    let receiver = match extract_poll_self_type(&m.inputs) {
        None => return Some(Err(MacroError { item_index: i, kind: MacroErrorKind::Receiver })),
        Some(receiver) => receiver,
    };
    let async_name = match async_method_name(&meta.async_method_name, m.ident.as_str()) {
        None => return Some(Err(MacroError { item_index: i, kind: MacroErrorKind::MissingPollPrefix })),
        Some(n) => n,
    };
    let fut_name = match future_name(&meta.future_name, trait_name, m.ident.as_str()) {
        None => return Some(Err(MacroError { item_index: i, kind: MacroErrorKind::MissingPollPrefix })),
        Some(n) => n,
    };
    let shape = generation_shape(meta.ty, receiver);
    Some(
        Ok(
            MethodPlan {
                item_index: i,
                attr_index,
                async_method_name: async_name,
                future_name: fut_name,
                output,
                ty: meta.ty,
                receiver,
                shape,
            },
        ),
    )
}

/// Plans the async methods and futures that `#[async_poll_trait]` adds to the
/// trait `model`: one plan per method carrying an `#[async_method]`
/// attribute, in the order of the trait's items, or the error of the first
/// such method that cannot be given one.
pub fn plan_async_poll_trait(model: &TraitModel) -> (r: Result<Vec<MethodPlan>, MacroError>)
    requires
        trait_readable(*model),
    ensures
        plan_result_view(r) == spec_plan_items(model.ident@, model.items@),
{
    let trait_name = model.ident.as_str();
    let mut plans: Vec<MethodPlan> = Vec::new();
    let mut i: usize = 0;
    assert(model.items@.take(0) =~= Seq::<TraitItemModel>::empty());
    assert(plans@.map_values(|p: MethodPlan| p@) =~= Seq::<MethodPlanView>::empty());
    while i < model.items.len()
        invariant
            i <= model.items@.len(),
            trait_name@ == model.ident@,
            trait_readable(*model),
            spec_plan_items(model.ident@, model.items@.take(i as int)) == Ok::<
                Seq<MethodPlanView>,
                MacroError,
            >(plans@.map_values(|p: MethodPlan| p@)),
        decreases model.items@.len() - i,
    {
        let ghost items = model.items@;
        assert(items.take(i + 1).drop_last() =~= items.take(i as int));
        assert(items.take(i + 1).last() == items[i as int]);
        assert(item_readable(model.ident@, items, i as int));
        match &model.items[i] {
            TraitItemModel::Method(m) => {
                match plan_method(trait_name, m, i) {
                    None => {},
                    Some(Err(e)) => {
                        proof {
                            lemma_error_is_final(model.ident@, items, i + 1);
                        }
                        return Err(e);
                    },
                    Some(Ok(p)) => {
                        let ghost old_plans = plans@;
                        plans.push(p);
                        assert(plans@.map_values(|p: MethodPlan| p@) =~= old_plans.map_values(
                            |p: MethodPlan| p@,
                        ).push(p@));
                    },
                }
            },
            TraitItemModel::Other => {},
        }
        i = i + 1;
    }
    assert(model.items@.take(model.items@.len() as int) =~= model.items@);
    Ok(plans)
}

/// Once an item yields an error, the items after it do not change the outcome.
proof fn lemma_error_is_final(trait_name: Seq<char>, items: Seq<TraitItemModel>, n: int)
    requires
        0 <= n <= items.len(),
        spec_plan_items(trait_name, items.take(n)) is Err,
    ensures
        spec_plan_items(trait_name, items) == spec_plan_items(trait_name, items.take(n)),
    decreases items.len(),
{
    if n < items.len() {
        assert(items.drop_last().take(n) =~= items.take(n));
        lemma_error_is_final(trait_name, items.drop_last(), n);
    } else {
        assert(items.take(n) =~= items);
    }
}

/// What a tagged method's plan says: the async method is named by
/// `method_name` when given, else by the polling method's name without
/// `poll_`; the future is named by `future_name` when given, else by the
/// trait's name followed by the class-case form of that base name; the
/// future's output is the argument of `Poll`; and the form of the generated
/// code follows the `owned` option and the polling method's receiver.
pub proof fn lemma_plan_follows_options(trait_name: Seq<char>, m: MethodModel, i: usize)
    ensures
        spec_plan_method(trait_name, m, i) matches Some(Ok(p)) ==> {
            let meta = spec_attr_meta(m.attrs@[p.attr_index as int])->Ok_0;
            &&& spec_attr_meta(m.attrs@[p.attr_index as int]) is Ok
            &&& p.async_method_name == match meta.async_method_name {
                Some(n) => n,
                None => spec_strip_poll_prefix(m.ident@)->Some_0,
            }
            &&& p.future_name == match meta.future_name {
                Some(n) => n,
                None => trait_name + class_case(spec_strip_poll_prefix(m.ident@)->Some_0),
            }
            &&& spec_output_type(m.output) == Ok::<usize, OutputTypeError>(p.output)
            &&& spec_receiver_type(m.inputs@) == Some(p.receiver)
            &&& p.ty == meta.ty
            &&& p.shape == spec_generation_shape(meta.ty, p.receiver)
        },
{
    assert(m.attrs.len() == m.attrs@.len());
}

/// The name starts with `poll_`.
pub open spec fn starts_with_poll(name: Seq<char>) -> bool {
    &&& name.len() >= 5
    &&& name[0] == 'p'
    &&& name[1] == 'o'
    &&& name[2] == 'l'
    &&& name[3] == 'l'
    &&& name[4] == '_'
}

/// For a tagged method whose options, return type and receiver are all
/// accepted, each name falls back on its own: the plan succeeds exactly when
/// the method's name starts with `poll_` or both names are given; the async
/// method is then named by `method_name` when given, else by the method's name
/// after `poll_`, and the future by `future_name` when given, else by the
/// trait's name followed by the class-case form of that same rest; and the
/// only error left is the missing `poll_` prefix.
pub proof fn law_names_fall_back_independently(trait_name: Seq<char>, m: MethodModel, i: usize)
    requires
        first_async_method_attr(m.attrs@) is Some,
        spec_attr_meta(m.attrs@[first_async_method_attr(m.attrs@)->Some_0]) is Ok,
        spec_output_type(m.output) is Ok,
        spec_receiver_type(m.inputs@) is Some,
    ensures
        ({
            let meta = spec_attr_meta(m.attrs@[first_async_method_attr(m.attrs@)->Some_0])->Ok_0;
            &&& (spec_plan_method(trait_name, m, i) matches Some(Ok(_))) == (starts_with_poll(m.ident@)
                || (meta.async_method_name is Some && meta.future_name is Some))
            &&& spec_plan_method(trait_name, m, i) matches Some(Ok(p)) ==> {
                &&& p.async_method_name == match meta.async_method_name {
                    Some(n) => n,
                    None => m.ident@.skip(5),
                }
                &&& p.future_name == match meta.future_name {
                    Some(n) => n,
                    None => trait_name + class_case(m.ident@.skip(5)),
                }
            }
            &&& spec_plan_method(trait_name, m, i) matches Some(Err(e)) ==> e
                == MacroError { item_index: i, kind: MacroErrorKind::MissingPollPrefix }
        }),
{
    assert(m.attrs.len() == m.attrs@.len());
    if m.ident@.len() >= 5 {
        assert((m.ident@.take(5) == poll_prefix()) == starts_with_poll(m.ident@)) by {
            if starts_with_poll(m.ident@) {
                assert(m.ident@.take(5) =~= poll_prefix());
            }
            if m.ident@.take(5) == poll_prefix() {
                assert(m.ident@.take(5)[0] == 'p');
                assert(m.ident@.take(5)[1] == 'o');
                assert(m.ident@.take(5)[2] == 'l');
                assert(m.ident@.take(5)[3] == 'l');
                assert(m.ident@.take(5)[4] == '_');
            }
        }
    }
}

/// The item is a method that carries an `#[async_method]` attribute.
pub open spec fn is_tagged(item: TraitItemModel) -> bool {
    item matches TraitItemModel::Method(m) && first_async_method_attr(m.attrs@) is Some
}

/// An item yields something exactly when it is a tagged method, and what a
/// tagged method at position `i` yields is about that position and its first
/// `#[async_method]` attribute.
proof fn lemma_plan_item_shape(trait_name: Seq<char>, item: TraitItemModel, i: usize)
    ensures
        spec_plan_item(trait_name, item, i) is Some <==> is_tagged(item),
        spec_plan_item(trait_name, item, i) matches Some(Ok(p)) ==> {
            &&& p.item_index == i
            &&& item matches TraitItemModel::Method(m) && first_async_method_attr(m.attrs@) == Some(
                p.attr_index as int,
            )
        },
        spec_plan_item(trait_name, item, i) matches Some(Err(e)) ==> e.item_index == i,
{
    if let TraitItemModel::Method(m) = item {
        assert(m.attrs.len() == m.attrs@.len());
    }
}

/// Each method that carries an `#[async_method]` attribute gets exactly one
/// generated async method and future, and no other item gets one: when the
/// planning succeeds, the plans name the tagged methods, each once, in the
/// order of the trait's items, each with its first `#[async_method]`
/// attribute, and each plan is what its method alone yields.
pub proof fn lemma_one_plan_per_tagged_method(trait_name: Seq<char>, items: Seq<TraitItemModel>)
    requires
        items.len() <= usize::MAX,
    ensures
        spec_plan_items(trait_name, items) matches Ok(plans) ==> {
            &&& forall|k: int|
                0 <= k < plans.len() ==> {
                    &&& 0 <= #[trigger] plans[k].item_index < items.len()
                    &&& is_tagged(items[plans[k].item_index as int])
                    &&& spec_plan_item(trait_name, items[plans[k].item_index as int], plans[k].item_index)
                        == Some(Ok::<MethodPlanView, MacroError>(plans[k]))
                }
            &&& forall|k1: int, k2: int|
                0 <= k1 < k2 < plans.len() ==> #[trigger] plans[k1].item_index
                    < #[trigger] plans[k2].item_index
            &&& forall|i: int|
                0 <= i < items.len() && is_tagged(#[trigger] items[i]) ==> exists|k: int|
                    0 <= k < plans.len() && #[trigger] plans[k].item_index == i
        },
    decreases items.len(),
{
    if items.len() > 0 {
        let init = items.drop_last();
        let n = (items.len() - 1) as usize;
        lemma_one_plan_per_tagged_method(trait_name, init);
        lemma_plan_item_shape(trait_name, items.last(), n);
        if let Ok(plans) = spec_plan_items(trait_name, items) {
            let prev = spec_plan_items(trait_name, init)->Ok_0;
            assert forall|k: int| 0 <= k < prev.len() implies prev[k].item_index < n by {
                assert(0 <= prev[k].item_index < init.len());
            }
            assert forall|i: int|
                0 <= i < items.len() && is_tagged(#[trigger] items[i]) implies exists|k: int|
                    0 <= k < plans.len() && #[trigger] plans[k].item_index == i by {
                if i < n {
                    assert(init[i] == items[i]);
                    let k = choose|k: int| 0 <= k < prev.len() && #[trigger] prev[k].item_index == i;
                    assert(plans[k] == prev[k]);
                } else {
                    assert(plans.last().item_index == n);
                }
            }
        }
    }
}

/// When the planning fails, the error is that of the first tagged method
/// that fails: that method yields it, and no method before it fails.
pub proof fn lemma_error_is_first_failure(trait_name: Seq<char>, items: Seq<TraitItemModel>)
    requires
        items.len() <= usize::MAX,
    ensures
        spec_plan_items(trait_name, items) matches Err(e) ==> {
            &&& 0 <= e.item_index < items.len()
            &&& spec_plan_item(trait_name, items[e.item_index as int], e.item_index) == Some(
                Err::<MethodPlanView, MacroError>(e),
            )
            &&& forall|j: int|
                0 <= j < e.item_index ==> !(spec_plan_item(trait_name, #[trigger] items[j], j as usize) is Some
                    && spec_plan_item(trait_name, items[j], j as usize)->Some_0 is Err)
        },
    decreases items.len(),
{
    if items.len() > 0 {
        let init = items.drop_last();
        let n = (items.len() - 1) as usize;
        lemma_error_is_first_failure(trait_name, init);
        lemma_plan_item_shape(trait_name, items.last(), n);
        if let Err(e) = spec_plan_items(trait_name, items) {
            if spec_plan_items(trait_name, init) is Ok {
                assert forall|j: int| 0 <= j < e.item_index implies !(spec_plan_item(
                    trait_name,
                    #[trigger] items[j],
                    j as usize,
                ) is Some && spec_plan_item(trait_name, items[j], j as usize)->Some_0 is Err) by {
                    assert(init[j] == items[j]);
                    lemma_ok_prefix_has_no_failure(trait_name, init, j);
                }
            } else {
                assert forall|j: int| 0 <= j < e.item_index implies !(spec_plan_item(
                    trait_name,
                    #[trigger] items[j],
                    j as usize,
                ) is Some && spec_plan_item(trait_name, items[j], j as usize)->Some_0 is Err) by {
                    assert(init[j] == items[j]);
                }
                assert(init[e.item_index as int] == items[e.item_index as int]);
            }
        }
    }
}

/// When the planning of `items` succeeds, none of its items fails.
proof fn lemma_ok_prefix_has_no_failure(trait_name: Seq<char>, items: Seq<TraitItemModel>, j: int)
    requires
        items.len() <= usize::MAX,
        spec_plan_items(trait_name, items) is Ok,
        0 <= j < items.len(),
    ensures
        !(spec_plan_item(trait_name, items[j], j as usize) is Some && spec_plan_item(
            trait_name,
            items[j],
            j as usize,
        )->Some_0 is Err),
    decreases items.len(),
{
    if j < items.len() - 1 {
        assert(items.drop_last()[j] == items[j]);
        lemma_ok_prefix_has_no_failure(trait_name, items.drop_last(), j);
    }
}

/// A trait without any `#[async_method]` attribute gets no generated methods
/// and no error.
pub proof fn lemma_untagged_trait_gets_nothing(trait_name: Seq<char>, items: Seq<TraitItemModel>)
    requires
        items.len() <= usize::MAX,
        forall|i: int| 0 <= i < items.len() ==> !is_tagged(#[trigger] items[i]),
    ensures
        spec_plan_items(trait_name, items) == Ok::<Seq<MethodPlanView>, MacroError>(seq![]),
    decreases items.len(),
{
    if items.len() > 0 {
        let init = items.drop_last();
        assert forall|i: int| 0 <= i < init.len() implies !is_tagged(#[trigger] init[i]) by {
            assert(init[i] == items[i]);
        }
        lemma_untagged_trait_gets_nothing(trait_name, init);
        lemma_plan_item_shape(trait_name, items.last(), (items.len() - 1) as usize);
        assert(!is_tagged(items[items.len() - 1]));
    }
}

} // verus!
