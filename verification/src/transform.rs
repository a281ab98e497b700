//! The transformation routine itself: signature validation, success-type
//! extraction, argument projection, and synthesis of the plan for the
//! generated wrapper.

use crate::model::DiagnosticAnchor;
use crate::model::FnModel;
use crate::model::ParamModel;
use crate::model::PatModel;
use crate::model::RejectKind;
use crate::model::Rejection;
use crate::model::RetModel;
use crate::model::SegmentArgs;
use crate::model::Strategy;
use crate::plan::ArgLists;
use crate::plan::CallArg;
use crate::plan::DispatchCall;
use crate::plan::InnerFn;
use crate::plan::InnerPlacement;
use crate::plan::TransformPlan;
use crate::plan::WrapperFn;
use crate::text::contains_seq;
use crate::text::contains_substr;
use vstd::prelude::*;
use vstd::string::StringExecFns;

verus! {

/// The declared return type names a `Result`: it is a path type whose
/// final segment's identifier contains the marker text `Result`. This is a
/// deliberately loose, purely syntactic test: no type resolution is
/// performed, so a result type reached through an alias whose name lacks
/// the marker is (knowingly) rejected.
pub open spec fn ret_names_result(ret: RetModel) -> bool {
    match ret {
        RetModel::Path { segments } => segments@.len() > 0 && contains_seq(
            segments@.last().ident@,
            "Result"@,
        ),
        _ => false,
    }
}

/// The declared return type names a `Result` whose final segment carries
/// angle-bracketed generic arguments with at least one entry: the first
/// entry serves as the success type.
pub open spec fn ret_has_ok_type(ret: RetModel) -> bool {
    ret_names_result(ret) && match ret {
        RetModel::Path { segments } => match segments@.last().args {
            SegmentArgs::Angle { args } => args@.len() > 0,
            _ => false,
        },
        _ => false,
    }
}

/// The token text of the success type: the first generic argument of the
/// final path segment (meaningful only when `ret_has_ok_type` holds).
pub open spec fn spec_ok_type(ret: RetModel) -> Seq<char> {
    match ret {
        RetModel::Path { segments } => match segments@.last().args {
            SegmentArgs::Angle { args } => args@[0]@,
            _ => Seq::empty(),
        },
        _ => Seq::empty(),
    }
}

/// Where the diagnostic for an ineligible return type is anchored: at the
/// declared return type when there is one, else at the whole signature.
pub open spec fn spec_reject_anchor(ret: RetModel) -> DiagnosticAnchor {
    if ret is Absent {
        DiagnosticAnchor::SignatureSpan
    } else {
        DiagnosticAnchor::ReturnTypeSpan
    }
}

/// A receiver parameter is present.
pub open spec fn spec_has_receiver(params: Seq<ParamModel>) -> bool {
    exists|i: int| 0 <= i < params.len() && params[i] is Receiver
}

/// The token text a parameter's binding pattern forwards to the target
/// call: for a simple identifier pattern only the identifier (its
/// mutability qualifier and attributes are stripped), for any other
/// pattern its original tokens unchanged.
pub open spec fn forwarded_text(pat: PatModel) -> Seq<char> {
    match pat {
        PatModel::Ident { name, mutable: _, has_attrs: _ } => name@,
        PatModel::Other { tokens } => tokens@,
    }
}

/// The forwarded token texts of all typed parameters, in order; receiver
/// parameters contribute nothing.
pub open spec fn spec_forwarded(params: Seq<ParamModel>) -> Seq<Seq<char>>
    decreases params.len(),
{
    if params.len() == 0 {
        Seq::empty()
    } else {
        let rest = spec_forwarded(params.drop_last());
        match params.last() {
            ParamModel::Receiver { tokens: _ } => rest,
            ParamModel::Typed { pat, ty: _ } => rest.push(forwarded_text(pat)),
        }
    }
}

/// The views of a list of token texts.
pub open spec fn texts_of(v: Seq<String>) -> Seq<Seq<char>> {
    v.map_values(|s: String| s@)
}

/// The internal-only name the hidden-inner strategy gives the original
/// function.
pub open spec fn hidden_name_of(name: Seq<char>) -> Seq<char> {
    "__"@ + name + "_inner"@
}

/// The derived name the flat strategy gives the generated wrapper.
pub open spec fn wrapper_name_of(name: Seq<char>) -> Seq<char> {
    name + "_ffi"@
}

/// Validate eligibility: the declared return type must name a `Result`
/// (§ signature validation). On failure the transformation aborts with a
/// fixed diagnostic anchored at the return type, or at the whole signature
/// when no return type is declared.
pub fn validate_return(ret: &RetModel) -> (r: Result<(), Rejection>)
    ensures
        r is Ok <==> ret_names_result(*ret),
        r is Err ==> r->Err_0 == (Rejection {
            kind: RejectKind::NotResult,
            anchor: spec_reject_anchor(*ret),
        }),
{
    match ret {
        RetModel::Path { segments } => {
            if segments.len() > 0 {
                let last = &segments[segments.len() - 1];
                if contains_substr(last.ident.as_str(), "Result") {
                    return Ok(());
                }
            }
            Err(Rejection { kind: RejectKind::NotResult, anchor: DiagnosticAnchor::ReturnTypeSpan })
        },
        RetModel::Absent => Err(
            Rejection { kind: RejectKind::NotResult, anchor: DiagnosticAnchor::SignatureSpan },
        ),
        RetModel::OtherType { tokens: _ } => Err(
            Rejection { kind: RejectKind::NotResult, anchor: DiagnosticAnchor::ReturnTypeSpan },
        ),
    }
}

/// Extract the success type from a validated eligible return type: the
/// first generic argument of the final path segment, copied verbatim. If
/// the final segment carries no generic argument, the transformation
/// aborts with a fixed diagnostic anchored at the return type.
pub fn extract_ok_type(ret: &RetModel) -> (r: Result<String, Rejection>)
    requires
        ret_names_result(*ret),
    ensures
        r is Ok <==> ret_has_ok_type(*ret),
        r is Ok ==> r->Ok_0@ == spec_ok_type(*ret),
        r is Err ==> r->Err_0 == (Rejection {
            kind: RejectKind::MissingOkType,
            anchor: DiagnosticAnchor::ReturnTypeSpan,
        }),
{
    match ret {
        RetModel::Path { segments } => {
            let last = &segments[segments.len() - 1];
            match &last.args {
                SegmentArgs::Angle { args } => {
                    if args.len() > 0 {
                        Ok(args[0].clone())
                    } else {
                        Err(Rejection {
                            kind: RejectKind::MissingOkType,
                            anchor: DiagnosticAnchor::ReturnTypeSpan,
                        })
                    }
                },
                _ => Err(Rejection {
                    kind: RejectKind::MissingOkType,
                    anchor: DiagnosticAnchor::ReturnTypeSpan,
                }),
            }
        },
        _ => Err(Rejection {
            kind: RejectKind::MissingOkType,
            anchor: DiagnosticAnchor::ReturnTypeSpan,
        }),
    }
}

/// Copy one binding pattern.
fn clone_pat(p: &PatModel) -> (r: PatModel)
    ensures
        r == *p,
{
    match p {
        PatModel::Ident { name, mutable, has_attrs } => PatModel::Ident {
            name: name.clone(),
            mutable: *mutable,
            has_attrs: *has_attrs,
        },
        PatModel::Other { tokens } => PatModel::Other { tokens: tokens.clone() },
    }
}

/// Copy one parameter.
fn clone_param(p: &ParamModel) -> (r: ParamModel)
    ensures
        r == *p,
{
    match p {
        ParamModel::Receiver { tokens } => ParamModel::Receiver { tokens: tokens.clone() },
        ParamModel::Typed { pat, ty } => ParamModel::Typed {
            pat: clone_pat(pat),
            ty: ty.clone(),
        },
    }
}

/// Copy a parameter list.
fn clone_params(ps: &Vec<ParamModel>) -> (r: Vec<ParamModel>)
    ensures
        r@ == ps@,
{
    let mut r: Vec<ParamModel> = Vec::new();
    let mut i: usize = 0;
    while i < ps.len()
        invariant
            0 <= i <= ps@.len(),
            r@ == ps@.subrange(0, i as int),
        decreases ps@.len() - i,
    {
        r.push(clone_param(&ps[i]));
        proof {
            assert(r@ =~= ps@.subrange(0, i + 1));
        }
        i += 1;
    }
    proof {
        assert(ps@.subrange(0, ps@.len() as int) =~= ps@);
    }
    r
}

/// The token text one parameter forwards to the target call.
fn forwarded_tokens(pat: &PatModel) -> (r: String)
    ensures
        r@ == forwarded_text(*pat),
{
    match pat {
        PatModel::Ident { name, mutable: _, has_attrs: _ } => name.clone(),
        PatModel::Other { tokens } => tokens.clone(),
    }
}

/// Build the two argument-forwarding lists from the original parameter
/// list, and record whether a receiver parameter is present. This step
/// cannot fail: any parameter shape not explicitly handled is forwarded as
/// its original pattern tokens unchanged.
pub fn project_args(params: &Vec<ParamModel>) -> (r: ArgLists)
    ensures
        r.has_receiver == spec_has_receiver(params@),
        texts_of(r.without_receiver@) == spec_forwarded(params@),
        r.with_receiver@.len() == r.without_receiver@.len() + (if r.has_receiver {
            1int
        } else {
            0int
        }),
        r.has_receiver ==> r.with_receiver@[0] is SelfRef,
        r.has_receiver ==> forall|k: int|
            0 <= k < r.without_receiver@.len() ==> ((#[trigger] r.with_receiver@[k + 1])
                matches CallArg::Tokens { text } && text@ == r.without_receiver@[k]@),
        !r.has_receiver ==> forall|k: int|
            0 <= k < r.without_receiver@.len() ==> ((#[trigger] r.with_receiver@[k])
                matches CallArg::Tokens { text } && text@ == r.without_receiver@[k]@),
{
    let mut has_receiver = false;
    let mut without: Vec<String> = Vec::new();
    let mut i: usize = 0;
    while i < params.len()
        invariant
            0 <= i <= params@.len(),
            has_receiver == (exists|j: int| 0 <= j < i && params@[j] is Receiver),
            texts_of(without@) == spec_forwarded(params@.subrange(0, i as int)),
        decreases params@.len() - i,
    {
        let ghost prev = i as int;
        match &params[i] {
            ParamModel::Receiver { tokens: _ } => {
                has_receiver = true;
            },
            ParamModel::Typed { pat, ty: _ } => {
                let t = forwarded_tokens(pat);
                without.push(t);
            },
        }
        proof {
            assert(params@.subrange(0, prev + 1).drop_last() =~= params@.subrange(0, prev));
            assert(params@.subrange(0, prev + 1).last() == params@[prev]);
            assert(texts_of(without@) =~= spec_forwarded(params@.subrange(0, prev + 1)));
        }
        i += 1;
    }
    proof {
        assert(params@.subrange(0, params@.len() as int) =~= params@);
    }
    let mut with: Vec<CallArg> = Vec::new();
    if has_receiver {
        with.push(CallArg::SelfRef);
    }
    let ghost offset: int = if has_receiver {
        1int
    } else {
        0int
    };
    let mut k: usize = 0;
    while k < without.len()
        invariant
            0 <= k <= without@.len(),
            with@.len() == k + offset,
            offset == (if has_receiver {
                1int
            } else {
                0int
            }),
            has_receiver ==> with@[0] is SelfRef,
            forall|j: int|
                0 <= j < k ==> ((#[trigger] with@[j + offset]) matches CallArg::Tokens { text }
                    && text@ == without@[j]@),
        decreases without@.len() - k,
    {
        let t = without[k].clone();
        with.push(CallArg::Tokens { text: t });
        k += 1;
    }
    proof {
        if !has_receiver {
            assert forall|j: int|
                0 <= j < without@.len() implies ((#[trigger] with@[j])
                matches CallArg::Tokens { text } && text@ == without@[j]@) by {
                assert((with@[j + offset]) matches CallArg::Tokens { text } && text@
                    == without@[j]@);
            }
        }
    }
    ArgLists { without_receiver: without, with_receiver: with, has_receiver }
}

/// The derived name of the generated wrapper under the flat strategy: the
/// original name followed by a fixed suffix.
pub fn wrapper_name(name: &String) -> (r: String)
    ensures
        r@ == wrapper_name_of(name@),
{
    let mut n = name.clone();
    n.append("_ffi");
    n
}

/// The internal-only name the hidden-inner strategy gives the original
/// function.
pub fn hidden_inner_name(name: &String) -> (r: String)
    ensures
        r@ == hidden_name_of(name@),
{
    let mut n = String::from_str("__");
    n.append(name.as_str());
    n.append("_inner");
    n
}

/// Select the naming strategy from the invocation's optional marker
/// argument: no marker means the default flat strategy, a marker selects
/// the hidden-inner strategy.
pub fn choose_strategy(marker_present: bool) -> (s: Strategy)
    ensures
        s == (if marker_present {
            Strategy::HiddenInner
        } else {
            Strategy::Flat
        }),
{
    if marker_present {
        Strategy::HiddenInner
    } else {
        Strategy::Flat
    }
}

/// The plan is exactly what the transformation owes for this input
/// function under this strategy: the wrapper keeps the original's
/// visibility, generics, asynchronous qualifier and parameter list, its
/// success type is the one extracted from the return type, the dispatch
/// call forwards the projected arguments (through the receiver exactly
/// when one is present, awaited exactly when the original is
/// asynchronous), and the two functions are named and placed as the
/// strategy dictates.
pub open spec fn plan_matches(f: FnModel, strategy: Strategy, p: TransformPlan) -> bool {
    &&& p.wrapper.vis@ == f.vis@
    &&& p.wrapper.generics@ == f.generics@
    &&& p.wrapper.is_async == f.is_async
    &&& p.wrapper.params@ == f.params@
    &&& p.wrapper.ok_type@ == spec_ok_type(f.ret)
    &&& p.call.awaited == f.is_async
    &&& p.call.through_receiver == spec_has_receiver(f.params@)
    &&& texts_of(p.call.args@) == spec_forwarded(f.params@)
    &&& match strategy {
        Strategy::Flat => {
            &&& p.wrapper.name@ == wrapper_name_of(f.name@)
            &&& p.call.callee@ == f.name@
            &&& p.inner is KeptOriginal
        },
        Strategy::HiddenInner => {
            &&& p.wrapper.name@ == f.name@
            &&& p.call.callee@ == hidden_name_of(f.name@)
            &&& p.inner matches InnerFn::Hidden { name, placement } && name@ == hidden_name_of(
                f.name@,
            ) && placement == (if spec_has_receiver(f.params@) {
                InnerPlacement::Sibling
            } else {
                InnerPlacement::NestedInWrapper
            })
        },
    }
}

/// Transform one function: validate the return type, extract the success
/// type, project the arguments, and synthesize the plan for the generated
/// wrapper under the chosen strategy. An ineligible function is rejected
/// with the fixed diagnostic and no output at all.
pub fn stringify_err(f: &FnModel, strategy: Strategy) -> (r: Result<TransformPlan, Rejection>)
    ensures
        r is Ok <==> ret_has_ok_type(f.ret),
        !ret_names_result(f.ret) ==> r->Err_0 == (Rejection {
            kind: RejectKind::NotResult,
            anchor: spec_reject_anchor(f.ret),
        }),
        ret_names_result(f.ret) && !ret_has_ok_type(f.ret) ==> r->Err_0 == (Rejection {
            kind: RejectKind::MissingOkType,
            anchor: DiagnosticAnchor::ReturnTypeSpan,
        }),
        r is Ok ==> plan_matches(*f, strategy, r->Ok_0),
{
    match validate_return(&f.ret) {
        Err(rej) => {
            return Err(rej);
        },
        Ok(u) => u,
    };
    let ok_type = match extract_ok_type(&f.ret) {
        Err(rej) => {
            return Err(rej);
        },
        Ok(t) => t,
    };
    let lists = project_args(&f.params);
    let params = clone_params(&f.params);
    let vis = f.vis.clone();
    let generics = f.generics.clone();
    match strategy {
        Strategy::Flat => {
            let name = wrapper_name(&f.name);
            let callee = f.name.clone();
            Ok(TransformPlan {
                wrapper: WrapperFn {
                    name,
                    vis,
                    generics,
                    is_async: f.is_async,
                    params,
                    ok_type,
                },
                call: DispatchCall {
                    callee,
                    through_receiver: lists.has_receiver,
                    args: lists.without_receiver,
                    awaited: f.is_async,
                },
                inner: InnerFn::KeptOriginal,
            })
        },
        Strategy::HiddenInner => {
            let hidden = hidden_inner_name(&f.name);
            let callee = hidden.clone();
            let name = f.name.clone();
            let placement = if lists.has_receiver {
                InnerPlacement::Sibling
            } else {
                InnerPlacement::NestedInWrapper
            };
            Ok(TransformPlan {
                wrapper: WrapperFn {
                    name,
                    vis,
                    generics,
                    is_async: f.is_async,
                    params,
                    ok_type,
                },
                call: DispatchCall {
                    callee,
                    through_receiver: lists.has_receiver,
                    args: lists.without_receiver,
                    awaited: f.is_async,
                },
                inner: InnerFn::Hidden { name: hidden, placement },
            })
        },
    }
}

} // verus!
