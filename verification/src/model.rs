use vstd::prelude::*;

verus! {

/// A type as the macro reads it: a path (such as `Poll<T>` or `Pin<&mut Self>`),
/// a reference, or any other form.
pub enum TypeModel {
    Path { qself: bool, leading_colon: bool, segments: Vec<SegmentModel> },
    Reference { mutable: bool, elem: Box<TypeModel> },
    Other,
}

/// One segment of a path: its identifier and its arguments.
pub struct SegmentModel {
    pub ident: String,
    pub arguments: PathArgsModel,
}

/// The arguments of a path segment.
pub enum PathArgsModel {
    NoArguments,
    AngleBracketed(Vec<GenericArgModel>),
    Parenthesized,
}

/// One generic argument. A type argument carries a `handle` that names the
/// argument's own tokens for whoever built the model.
pub enum GenericArgModel {
    Type { handle: usize, ty: TypeModel },
    Other,
}

/// The return type of a method signature.
pub enum ReturnTypeModel {
    Default,
    Type(TypeModel),
}

/// A pattern of a typed argument: an identifier pattern (with whether it is
/// `ref` and whether it has a `@` subpattern), or any other pattern.
pub enum PatModel {
    Ident { by_ref: bool, has_subpat: bool, ident: String },
    Other,
}

/// One input of a method signature: a `self` receiver written with the
/// receiver shorthand (`self`, `&self`, `&mut self`, ...), or a typed argument.
pub enum FnArgModel {
    Receiver { reference: bool, mutable: bool },
    Typed { pat: PatModel, ty: TypeModel },
}

/// One argument inside `#[name(...)]`: `name = "string"` (with the
/// identifier of its path, if the path is a bare identifier), a bare path, or
/// anything else (a literal, a nested list, `name = 1`, ...).
pub enum NestedMetaModel {
    NameValueStr { ident: Option<String>, value: String },
    Path { ident: Option<String> },
    Other,
}

/// An attribute on a trait method: one whose tokens do not parse as a meta
/// item, `#[path]`, `#[path(...)]` or `#[path = ...]`. `ident` is the
/// identifier of the path when the path is a bare identifier.
pub enum AttrModel {
    Unparsable,
    Path { ident: Option<String> },
    List { ident: Option<String>, nested: Vec<NestedMetaModel> },
    NameValue,
}

/// A method declared in a trait: its name, its attributes, its inputs and
/// its return type.
pub struct MethodModel {
    pub ident: String,
    pub attrs: Vec<AttrModel>,
    pub inputs: Vec<FnArgModel>,
    pub output: ReturnTypeModel,
}

/// An item of a trait: a method, or anything else (a constant, a type, ...).
pub enum TraitItemModel {
    Method(MethodModel),
    Other,
}

/// A trait: its name and its items in the order they are declared.
pub struct TraitModel {
    pub ident: String,
    pub items: Vec<TraitItemModel>,
}

/// The identifier of a path when the path is exactly one segment without
/// arguments and without a leading `::`.
pub open spec fn path_ident(leading_colon: bool, segments: Seq<SegmentModel>) -> Option<Seq<char>> {
    if !leading_colon && segments.len() == 1 && segments[0].arguments is NoArguments {
        Some(segments[0].ident@)
    } else {
        None
    }
}

} // verus!
