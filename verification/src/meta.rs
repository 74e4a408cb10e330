use vstd::prelude::*;

use crate::model::{AttrModel, NestedMetaModel};
use crate::text::{opt_text, text_is};

verus! {

/// Whether the generated async method borrows the receiver the way the
/// polling method does, or takes `self` by value.
#[derive(Debug, Clone, Copy, PartialEq, Eq, Structural)]
pub enum AsyncMethodType {
    Ref,
    Owned,
}

/// The options given in an `#[async_method(...)]` attribute.
#[derive(Debug)]
pub struct MethodMeta {
    pub ty: AsyncMethodType,
    pub future_name: Option<String>,
    pub async_method_name: Option<String>,
}

/// The options of an `#[async_method(...)]` attribute, with names as text.
pub struct MethodMetaView {
    pub ty: AsyncMethodType,
    pub future_name: Option<Seq<char>>,
    pub async_method_name: Option<Seq<char>>,
}

impl View for MethodMeta {
    type V = MethodMetaView;

    open spec fn view(&self) -> MethodMetaView {
        MethodMetaView {
            ty: self.ty,
            future_name: opt_text(self.future_name),
            async_method_name: opt_text(self.async_method_name),
        }
    }
}

/// Why the arguments of an `#[async_method(...)]` attribute were refused:
/// the argument at the given position has a path that is not one of the
/// known options, or is not of a known form at all.
#[derive(Debug, Clone, Copy, PartialEq, Eq, Structural)]
pub enum MetaError {
    UnrecognizedPath(usize),
    UnrecognizedArgument(usize),
}

impl MetaError {
    /// The compile error message for this error.
    pub fn message(&self) -> (m: String)
        ensures
            m@ == "Unrecognized meta argument"@,
    {
        String::from_str("Unrecognized meta argument")
    }

    /// The position of the refused argument in the attribute's list.
    pub fn argument_index(&self) -> (i: usize)
        ensures
            i == match *self {
                MetaError::UnrecognizedPath(k) => k,
                MetaError::UnrecognizedArgument(k) => k,
            },
    {
        match self {
            MetaError::UnrecognizedPath(k) => *k,
            MetaError::UnrecognizedArgument(k) => *k,
        }
    }
}

/// The options of `#[async_method]` with nothing given.
pub open spec fn default_meta() -> MethodMetaView {
    MethodMetaView { ty: AsyncMethodType::Ref, future_name: None, async_method_name: None }
}

/// Whether `a` is an `#[async_method]` or `#[async_method(...)]` attribute.
pub open spec fn is_async_method_attr(a: AttrModel) -> bool {
    match a {
        AttrModel::Path { ident } => ident matches Some(i) && i@ == "async_method"@,
        AttrModel::List { ident, .. } => ident matches Some(i) && i@ == "async_method"@,
        _ => false,
    }
}

/// `i` is the position of the first `#[async_method]` attribute in `attrs`.
pub open spec fn is_first_async_method_attr(attrs: Seq<AttrModel>, i: int) -> bool {
    &&& 0 <= i < attrs.len()
    &&& is_async_method_attr(attrs[i])
    &&& forall|j: int| 0 <= j < i ==> !is_async_method_attr(#[trigger] attrs[j])
}

/// The position of the first `#[async_method]` attribute in `attrs`, if any.
pub open spec fn first_async_method_attr(attrs: Seq<AttrModel>) -> Option<int> {
    if exists|i: int| is_first_async_method_attr(attrs, i) {
        Some(choose|i: int| is_first_async_method_attr(attrs, i))
    } else {
        None
    }
}

/// The options after reading argument `arg`, at position `k`, on top of `m`.
pub open spec fn apply_meta_arg(m: MethodMetaView, arg: NestedMetaModel, k: usize) -> Result<
    MethodMetaView,
    MetaError,
> {
    match arg {
        NestedMetaModel::NameValueStr { ident, value } => match ident {
            Some(i) => if i@ == "method_name"@ {
                Ok(MethodMetaView { ty: m.ty, future_name: m.future_name, async_method_name: Some(value@) })
            } else if i@ == "future_name"@ {
                Ok(MethodMetaView { ty: m.ty, future_name: Some(value@), async_method_name: m.async_method_name })
            } else {
                Err(MetaError::UnrecognizedPath(k))
            },
            None => Err(MetaError::UnrecognizedPath(k)),
        },
        NestedMetaModel::Path { ident } => match ident {
            Some(i) => if i@ == "owned"@ {
                Ok(MethodMetaView { ty: AsyncMethodType::Owned, future_name: m.future_name, async_method_name: m.async_method_name })
            } else {
                Err(MetaError::UnrecognizedPath(k))
            },
            None => Err(MetaError::UnrecognizedPath(k)),
        },
        NestedMetaModel::Other => Err(MetaError::UnrecognizedArgument(k)),
    }
}

/// The options that the argument list `args` gives, read from left to right,
/// or the error at the first argument that is refused.
pub open spec fn meta_args_outcome(args: Seq<NestedMetaModel>) -> Result<MethodMetaView, MetaError>
    decreases args.len(),
{
    if args.len() == 0 {
        Ok(default_meta())
    } else {
        match meta_args_outcome(args.drop_last()) {
            Ok(m) => apply_meta_arg(m, args.last(), (args.len() - 1) as usize),
            Err(e) => Err(e),
        }
    }
}

/// The options that an `#[async_method]` attribute gives.
pub open spec fn spec_attr_meta(a: AttrModel) -> Result<MethodMetaView, MetaError> {
    match a {
        AttrModel::List { nested, .. } => meta_args_outcome(nested@),
        _ => Ok(default_meta()),
    }
}

/// The text view of a parsed options result.
pub open spec fn meta_result_view(r: Result<MethodMeta, MetaError>) -> Result<MethodMetaView, MetaError> {
    match r {
        Ok(m) => Ok(m@),
        Err(e) => Err(e),
    }
}

/// Once an argument is refused, the arguments after it do not change the outcome.
proof fn lemma_refusal_is_final(args: Seq<NestedMetaModel>, n: int)
    requires
        0 <= n <= args.len(),
        meta_args_outcome(args.take(n)) is Err,
    ensures
        meta_args_outcome(args) == meta_args_outcome(args.take(n)),
    decreases args.len(),
{
    if n < args.len() {
        assert(args.drop_last().take(n) =~= args.take(n));
        lemma_refusal_is_final(args.drop_last(), n);
    } else {
        assert(args.take(n) =~= args);
    }
}

/// Whether `a` is an `#[async_method]` attribute.
fn check_async_method_attr(a: &AttrModel) -> (b: bool)
    ensures
        b == is_async_method_attr(*a),
{
    match a {
        AttrModel::Path { ident: Some(i) } => text_is(i, "async_method"),
        AttrModel::List { ident: Some(i), .. } => text_is(i, "async_method"),
        _ => false,
    }
}

/// The position of the first `#[async_method]` attribute in `attrs`, if any.
pub fn find_async_method_attr(attrs: &Vec<AttrModel>) -> (r: Option<usize>)
    ensures
        r matches Some(i) ==> first_async_method_attr(attrs@) == Some(i as int),
        r is None ==> first_async_method_attr(attrs@) is None,
{
    let mut i: usize = 0;
    while i < attrs.len()
        invariant
            i <= attrs@.len(),
            forall|j: int| 0 <= j < i ==> !is_async_method_attr(#[trigger] attrs@[j]),
        decreases attrs@.len() - i,
    {
        if check_async_method_attr(&attrs[i]) {
            assert(is_first_async_method_attr(attrs@, i as int));
            assert forall|k: int| is_first_async_method_attr(attrs@, k) implies k == i by {
                if k < i {
                    assert(!is_async_method_attr(attrs@[k]));
                } else if k > i {
                    assert(!is_async_method_attr(attrs@[i as int]));
                }
            }
            return Some(i);
        }
        i = i + 1;
    }
    assert(!exists|k: int| is_first_async_method_attr(attrs@, k));
    None
}

/// Reads the arguments of an `#[async_method]` attribute.
pub fn parse_async_method_attr(attr: &AttrModel) -> (r: Result<MethodMeta, MetaError>)
    ensures
        meta_result_view(r) == spec_attr_meta(*attr),
{
    let mut result = MethodMeta { ty: AsyncMethodType::Ref, async_method_name: None, future_name: None };
    match attr {
        AttrModel::List { nested, .. } => {
            let mut k: usize = 0;
            while k < nested.len()
                invariant
                    k <= nested@.len(),
                    meta_args_outcome(nested@.take(k as int)) == Ok::<MethodMetaView, MetaError>(result@),
                    spec_attr_meta(*attr) == meta_args_outcome(nested@),
                decreases nested@.len() - k,
            {
                assert(nested@.take(k + 1).drop_last() =~= nested@.take(k as int));
                proof {
                    if meta_args_outcome(nested@.take(k + 1)) is Err {
                        lemma_refusal_is_final(nested@, k + 1);
                    }
                }
                match &nested[k] {
                    NestedMetaModel::NameValueStr { ident, value } => {
                        match ident {
                            Some(i) => {
                                if text_is(i, "method_name") {
                                    result.async_method_name = Some(value.clone());
                                } else if text_is(i, "future_name") {
                                    result.future_name = Some(value.clone());
                                } else {
                                    return Err(MetaError::UnrecognizedPath(k));
                                }
                            },
                            None => {
                                return Err(MetaError::UnrecognizedPath(k));
                            },
                        }
                    },
                    NestedMetaModel::Path { ident } => {
                        match ident {
                            Some(i) => {
                                if text_is(i, "owned") {
                                    result.ty = AsyncMethodType::Owned;
                                } else {
                                    return Err(MetaError::UnrecognizedPath(k));
                                }
                            },
                            None => {
                                return Err(MetaError::UnrecognizedPath(k));
                            },
                        }
                    },
                    NestedMetaModel::Other => {
                        return Err(MetaError::UnrecognizedArgument(k));
                    },
                }
                k = k + 1;
            }
            assert(nested@.take(nested@.len() as int) =~= nested@);
            Ok(result)
        },
        _ => Ok(result),
    }
}

/// Given the attributes of a method, if it has an `#[async_method]`
/// attribute, removes the first one and reads its options.
pub fn extract_meta(attrs: &mut Vec<AttrModel>) -> (r: Option<Result<MethodMeta, MetaError>>)
    ensures
        match first_async_method_attr(old(attrs)@) {
            None => r is None && final(attrs)@ == old(attrs)@,
            Some(i) => {
                &&& r matches Some(res) && meta_result_view(res) == spec_attr_meta(old(attrs)@[i])
                &&& final(attrs)@ == old(attrs)@.remove(i)
            },
        },
{
    match find_async_method_attr(attrs) {
        None => None,
        Some(i) => {
            let res = parse_async_method_attr(&attrs[i]);
            attrs.remove(i);
            Some(res)
        },
    }
}

/// The attribute is written `#[name]` or `#[name(...)]`.
pub open spec fn attr_is_named(a: AttrModel, name: Seq<char>) -> bool {
    match a {
        AttrModel::Path { ident: Some(i) } => i@ == name,
        AttrModel::List { ident: Some(i), .. } => i@ == name,
        _ => false,
    }
}

/// The `#[async_method]` attribute is found wherever it stands in the list:
/// when one is present, the search gives the least position holding one, and
/// it gives none only when no attribute is an `#[async_method]` attribute.
pub proof fn law_first_async_method_attr(attrs: Seq<AttrModel>)
    ensures
        (exists|i: int| 0 <= i < attrs.len() && attr_is_named(#[trigger] attrs[i], "async_method"@))
            ==> {
            &&& first_async_method_attr(attrs) is Some
            &&& 0 <= first_async_method_attr(attrs)->Some_0 < attrs.len()
            &&& attr_is_named(attrs[first_async_method_attr(attrs)->Some_0], "async_method"@)
            &&& forall|j: int|
                0 <= j < first_async_method_attr(attrs)->Some_0 ==> !attr_is_named(
                    #[trigger] attrs[j],
                    "async_method"@,
                )
        },
        (forall|i: int| 0 <= i < attrs.len() ==> !attr_is_named(#[trigger] attrs[i], "async_method"@))
            ==> first_async_method_attr(attrs) is None,
{
    assert forall|i: int| 0 <= i < attrs.len() implies attr_is_named(attrs[i], "async_method"@)
        == is_async_method_attr(#[trigger] attrs[i]) by {}
    if exists|i: int| 0 <= i < attrs.len() && attr_is_named(#[trigger] attrs[i], "async_method"@) {
        let i = choose|i: int| 0 <= i < attrs.len() && attr_is_named(#[trigger] attrs[i], "async_method"@);
        lemma_least_async_method_attr(attrs, i);
    }
}

/// Below any position holding an `#[async_method]` attribute there is a least one.
proof fn lemma_least_async_method_attr(attrs: Seq<AttrModel>, i: int)
    requires
        0 <= i < attrs.len(),
        is_async_method_attr(attrs[i]),
    ensures
        exists|k: int| is_first_async_method_attr(attrs, k),
    decreases i,
{
    if exists|j: int| 0 <= j < i && is_async_method_attr(#[trigger] attrs[j]) {
        let j = choose|j: int| 0 <= j < i && is_async_method_attr(#[trigger] attrs[j]);
        lemma_least_async_method_attr(attrs, j);
    } else {
        assert(is_first_async_method_attr(attrs, i));
    }
}

/// The argument sets the option `name` with `name = "value"`.
pub open spec fn sets_option(arg: NestedMetaModel, name: Seq<char>) -> bool {
    arg matches NestedMetaModel::NameValueStr { ident: Some(i), .. } && i@ == name
}

/// The text that a `name = "value"` argument gives.
pub open spec fn option_value(arg: NestedMetaModel) -> Seq<char> {
    match arg {
        NestedMetaModel::NameValueStr { value, .. } => value@,
        _ => Seq::empty(),
    }
}

/// The argument is the flag `owned`.
pub open spec fn is_owned_flag(arg: NestedMetaModel) -> bool {
    arg matches NestedMetaModel::Path { ident: Some(i) } && i@ == "owned"@
}

/// The argument is one of the known options.
pub open spec fn is_known_option(arg: NestedMetaModel) -> bool {
    sets_option(arg, "method_name"@) || sets_option(arg, "future_name"@) || is_owned_flag(arg)
}

/// The value of the option `name` in `o` is the value of the last argument
/// that sets it, and is absent when no argument sets it.
pub open spec fn is_last_given(args: Seq<NestedMetaModel>, name: Seq<char>, o: Option<Seq<char>>) -> bool {
    match o {
        None => forall|k: int| 0 <= k < args.len() ==> !sets_option(#[trigger] args[k], name),
        Some(v) => exists|k: int|
            0 <= k < args.len() && sets_option(#[trigger] args[k], name) && option_value(args[k]) == v
                && forall|j: int| k < j < args.len() ==> !sets_option(#[trigger] args[j], name),
    }
}

/// The arguments of `#[async_method(...)]` are accepted exactly when each is a
/// known option; then each of `method_name` and `future_name` has the last
/// value given for it, whatever the other arguments and their order, and the
/// method is `owned` exactly when some argument is the flag `owned`.
pub proof fn law_meta_options(args: Seq<NestedMetaModel>)
    ensures
        (meta_args_outcome(args) is Ok) == (forall|k: int|
            0 <= k < args.len() ==> is_known_option(#[trigger] args[k])),
        meta_args_outcome(args) matches Ok(m) ==> {
            &&& is_last_given(args, "method_name"@, m.async_method_name)
            &&& is_last_given(args, "future_name"@, m.future_name)
            &&& (m.ty == AsyncMethodType::Owned) == (exists|k: int|
                0 <= k < args.len() && is_owned_flag(#[trigger] args[k]))
        },
    decreases args.len(),
{
    if args.len() > 0 {
        let init = args.drop_last();
        let n = args.len() - 1;
        law_meta_options(init);
        assert forall|k: int| 0 <= k < init.len() implies #[trigger] init[k] == args[k] by {}
        if let Ok(m) = meta_args_outcome(args) {
            let m0 = meta_args_outcome(init)->Ok_0;
            assert(meta_args_outcome(init) is Ok);
            assert forall|k: int| 0 <= k < args.len() implies is_known_option(#[trigger] args[k]) by {
                if k < n {
                    assert(init[k] == args[k]);
                }
            }
            let last = args[n];
            // the method name
            if sets_option(last, "method_name"@) {
                assert(is_last_given(args, "method_name"@, m.async_method_name));
            } else {
                assert(m.async_method_name == m0.async_method_name);
                match m0.async_method_name {
                    None => {
                        assert forall|k: int| 0 <= k < args.len() implies !sets_option(
                            #[trigger] args[k],
                            "method_name"@,
                        ) by {
                            if k < n {
                                assert(init[k] == args[k]);
                            }
                        }
                    },
                    Some(v) => {
                        let k = choose|k: int|
                            0 <= k < init.len() && sets_option(#[trigger] init[k], "method_name"@)
                                && option_value(init[k]) == v && forall|j: int|
                                k < j < init.len() ==> !sets_option(#[trigger] init[j], "method_name"@);
                        assert forall|j: int| k < j < args.len() implies !sets_option(
                            #[trigger] args[j],
                            "method_name"@,
                        ) by {
                            if j < n {
                                assert(init[j] == args[j]);
                            }
                        }
                        assert(args[k] == init[k]);
                    },
                }
            }
            // the future name
            if sets_option(last, "future_name"@) {
                reveal_strlit("method_name");
                reveal_strlit("future_name");
                assert("method_name"@ != "future_name"@) by {
                    assert("method_name"@[0] != "future_name"@[0]);
                }
                assert(is_last_given(args, "future_name"@, m.future_name));
            } else {
                assert(m.future_name == m0.future_name);
                match m0.future_name {
                    None => {
                        assert forall|k: int| 0 <= k < args.len() implies !sets_option(
                            #[trigger] args[k],
                            "future_name"@,
                        ) by {
                            if k < n {
                                assert(init[k] == args[k]);
                            }
                        }
                    },
                    Some(v) => {
                        let k = choose|k: int|
                            0 <= k < init.len() && sets_option(#[trigger] init[k], "future_name"@)
                                && option_value(init[k]) == v && forall|j: int|
                                k < j < init.len() ==> !sets_option(#[trigger] init[j], "future_name"@);
                        assert forall|j: int| k < j < args.len() implies !sets_option(
                            #[trigger] args[j],
                            "future_name"@,
                        ) by {
                            if j < n {
                                assert(init[j] == args[j]);
                            }
                        }
                        assert(args[k] == init[k]);
                    },
                }
            }
            // the flag
            if is_owned_flag(last) {
                assert(m.ty == AsyncMethodType::Owned);
            } else {
                assert(m.ty == m0.ty);
                if exists|k: int| 0 <= k < args.len() && is_owned_flag(#[trigger] args[k]) {
                    let k = choose|k: int| 0 <= k < args.len() && is_owned_flag(#[trigger] args[k]);
                    assert(k < n);
                    assert(init[k] == args[k]);
                }
            }
        } else {
            if meta_args_outcome(init) is Ok {
                assert(!is_known_option(args[n]));
            } else {
                let k = choose|k: int| 0 <= k < init.len() && !is_known_option(#[trigger] init[k]);
                assert(init[k] == args[k]);
            }
        }
    }
}

} // verus!
