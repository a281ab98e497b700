//! The plain model of one function's syntax: everything the transformer
//! reads of a function declaration, held as ordinary values.
//!
//! Pieces the transformer never inspects (a type, a visibility, a generic
//! parameter list, a pattern it does not understand) are carried as opaque
//! token text and copied verbatim.

use vstd::prelude::*;

verus! {

/// The binding pattern of one typed parameter.
#[derive(Debug)]
pub enum PatModel {
    /// A simple identifier pattern, possibly declared `mut` and possibly
    /// carrying attributes. When such a parameter is forwarded to the target
    /// call, only the identifier survives: the mutability qualifier and the
    /// attributes are stripped.
    Ident { name: String, mutable: bool, has_attrs: bool },
    /// Any other pattern, carried as opaque token text and forwarded as-is.
    Other { tokens: String },
}

/// One parameter of the function.
#[derive(Debug)]
pub enum ParamModel {
    /// The receiver parameter (`self` in any of its forms), carried as
    /// opaque token text.
    Receiver { tokens: String },
    /// An ordinary typed parameter: a binding pattern and the opaque token
    /// text of its type.
    Typed { pat: PatModel, ty: String },
}

/// The generic arguments attached to one path segment.
#[derive(Debug)]
pub enum SegmentArgs {
    /// No generic arguments at all.
    Bare,
    /// Angle-bracketed arguments; each entry is the opaque token text of one
    /// argument.
    Angle { args: Vec<String> },
    /// Parenthesized (function-style) arguments, carried as opaque token
    /// text.
    Paren { tokens: String },
}

/// One segment of a type path.
#[derive(Debug)]
pub struct SegmentModel {
    /// The segment's identifier.
    pub ident: String,
    /// The segment's generic arguments, if any.
    pub args: SegmentArgs,
}

/// The declared return type of the function, as far as the transformer
/// reads it.
#[derive(Debug)]
pub enum RetModel {
    /// No return type is declared.
    Absent,
    /// The return type is a path type: a non-empty list of segments.
    Path { segments: Vec<SegmentModel> },
    /// The return type is anything else, carried as opaque token text.
    OtherType { tokens: String },
}

/// Everything the transformer reads of one function declaration.
#[derive(Debug)]
pub struct FnModel {
    /// The visibility, as opaque token text (empty for inherited
    /// visibility).
    pub vis: String,
    /// The function's name.
    pub name: String,
    /// The generic parameter list together with its `where` clause, as
    /// opaque token text (empty when there is none).
    pub generics: String,
    /// Whether the function is declared asynchronous.
    pub is_async: bool,
    /// The ordered parameter list.
    pub params: Vec<ParamModel>,
    /// The declared return type.
    pub ret: RetModel,
}

/// Where the original function's logic lives relative to the generated
/// wrapper.
#[derive(Clone, Copy, PartialEq, Eq, Structural, Debug)]
pub enum Strategy {
    /// The original function is kept unchanged under its own name and
    /// visibility, and the wrapper is emitted beside it under a derived
    /// name. This is the default.
    Flat,
    /// The original function is renamed to an internal-only name and
    /// downgraded to module-private visibility, and the wrapper takes over
    /// the original's name and visibility. Selected by an explicit marker.
    HiddenInner,
}

/// Where a rejection diagnostic is anchored.
#[derive(Clone, Copy, PartialEq, Eq, Structural, Debug)]
pub enum DiagnosticAnchor {
    /// At the span of the declared return type.
    ReturnTypeSpan,
    /// At the span of the whole signature (used when no return type is
    /// declared).
    SignatureSpan,
}

/// Why a function was rejected.
#[derive(Clone, Copy, PartialEq, Eq, Structural, Debug)]
pub enum RejectKind {
    /// The declared return type is absent or does not name a `Result`.
    NotResult,
    /// The return type names a `Result` but carries no generic argument to
    /// serve as the success type.
    MissingOkType,
}

/// A compile-time rejection: no code is generated, and a diagnostic with a
/// fixed message is reported at the anchored span.
#[derive(Clone, Copy, PartialEq, Eq, Structural, Debug)]
pub struct Rejection {
    /// Why the function was rejected.
    pub kind: RejectKind,
    /// Where the diagnostic is anchored.
    pub anchor: DiagnosticAnchor,
}

impl Rejection {
    /// The fixed diagnostic message for this rejection.
    pub fn message(&self) -> (r: &'static str)
        ensures
            self.kind is NotResult ==> r@
                == "this transform currently only supports functions that return `Result`s"@,
            self.kind is MissingOkType ==> r@
                == "the `Result` that is the return must at least have the Ok type"@,
    {
        match self.kind {
            RejectKind::NotResult => not_result_message(),
            RejectKind::MissingOkType => missing_ok_message(),
        }
    }
}

/// The fixed diagnostic message reported when the return type is absent or
/// does not name a `Result`.
pub fn not_result_message() -> (r: &'static str)
    ensures
        r@ == "this transform currently only supports functions that return `Result`s"@,
{
    "this transform currently only supports functions that return `Result`s"
}

/// The fixed diagnostic message reported when the `Result` return type has
/// no generic arguments.
pub fn missing_ok_message() -> (r: &'static str)
    ensures
        r@ == "the `Result` that is the return must at least have the Ok type"@,
{
    "the `Result` that is the return must at least have the Ok type"
}

} // verus!
