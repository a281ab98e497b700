//! The output of the transformer: a plan that says exactly which two
//! functions to emit for one eligible input function.

use crate::model::ParamModel;
use vstd::prelude::*;

verus! {

/// One entry of the argument list that forwards the receiver as well.
#[derive(Debug)]
pub enum CallArg {
    /// The self-reference token.
    SelfRef,
    /// The token text of one forwarded parameter.
    Tokens { text: String },
}

/// The two argument-forwarding lists built from the original parameter
/// list, and whether a receiver parameter is present.
#[derive(Debug)]
pub struct ArgLists {
    /// Every typed parameter's forwarded token text, in order: for a simple
    /// identifier pattern only the identifier (mutability and attributes
    /// stripped), for any other pattern its original tokens.
    pub without_receiver: Vec<String>,
    /// The same list, prefixed with a self-reference token when the
    /// original declares a receiver parameter.
    pub with_receiver: Vec<CallArg>,
    /// Whether a receiver parameter is present.
    pub has_receiver: bool,
}

/// The single dispatch expression that forms the wrapper's body: call the
/// target, await the outcome if the original is asynchronous, pass a
/// success payload through unchanged, and render a failure value with the
/// verbose (alternate) display form into the text that becomes the new
/// failure payload.
#[derive(Debug)]
pub struct DispatchCall {
    /// The name of the function the wrapper calls.
    pub callee: String,
    /// Whether the call goes through the receiver (`self.callee(...)`
    /// rather than `callee(...)`).
    pub through_receiver: bool,
    /// The forwarded arguments, in order (the receiver is not among them:
    /// `through_receiver` alone governs the self-access prefix).
    pub args: Vec<String>,
    /// Whether the call's outcome is awaited before matching on it.
    pub awaited: bool,
}

/// The signature of the generated wrapper. Its declared return type is
/// always `Result` of the copied success type and plain text: the
/// original's failure type never appears in it.
#[derive(Debug)]
pub struct WrapperFn {
    /// The wrapper's name.
    pub name: String,
    /// The wrapper's visibility: always the original's, verbatim.
    pub vis: String,
    /// The wrapper's generic parameter list: always the original's,
    /// verbatim.
    pub generics: String,
    /// Whether the wrapper is asynchronous: always exactly when the
    /// original is.
    pub is_async: bool,
    /// The wrapper's parameter list: always structurally identical to the
    /// original's.
    pub params: Vec<ParamModel>,
    /// The token text of the success type, copied verbatim from the first
    /// generic argument of the original return type's final path segment.
    pub ok_type: String,
}

/// Where the hidden copy of the original function is declared.
#[derive(Clone, Copy, PartialEq, Eq, Structural, Debug)]
pub enum InnerPlacement {
    /// As a sibling declaration at the same scope as the wrapper. Required
    /// when a receiver parameter is present: the receiver's concrete type
    /// is not nameable from inside the wrapper's body.
    Sibling,
    /// Nested directly inside the wrapper's body.
    NestedInWrapper,
}

/// What happens to the original function.
#[derive(Debug)]
pub enum InnerFn {
    /// The original function is emitted unchanged, as a sibling of the
    /// wrapper, under its own name and visibility (the flat strategy).
    KeptOriginal,
    /// The original function is renamed to `name`, downgraded to
    /// module-private visibility, excluded from generated documentation,
    /// and marked so that any direct use outside the wrapper's own call
    /// site triggers a warning (the hidden-inner strategy).
    Hidden { name: String, placement: InnerPlacement },
}

/// The transformer's whole output for one eligible function: emit the
/// wrapper, whose body is the dispatch call, and place the original as the
/// inner part says.
#[derive(Debug)]
pub struct TransformPlan {
    /// The generated wrapper's signature.
    pub wrapper: WrapperFn,
    /// The dispatch expression that forms the wrapper's body.
    pub call: DispatchCall,
    /// What happens to the original function.
    pub inner: InnerFn,
}

} // verus!
