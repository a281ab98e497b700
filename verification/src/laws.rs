//! The library-wide guarantees, stated and proved over the transformer's
//! contracts.

use crate::model::FnModel;
use crate::model::Strategy;
use crate::plan::InnerFn;
use crate::plan::TransformPlan;
use crate::transform::hidden_name_of;
use crate::transform::plan_matches;
use crate::transform::spec_has_receiver;
use crate::transform::texts_of;
use crate::transform::wrapper_name_of;
use vstd::prelude::*;

verus! {

/// Signature shape invariance: whatever the strategy, the generated
/// wrapper's parameter list is structurally identical to the original's,
/// and the wrapper carries the original's asynchronous qualifier,
/// visibility and generics; the dispatch call is awaited exactly when the
/// original is asynchronous and goes through the receiver exactly when a
/// receiver parameter is present.
pub proof fn lemma_wrapper_shape(f: FnModel, strategy: Strategy, p: TransformPlan)
    requires
        plan_matches(f, strategy, p),
    ensures
        p.wrapper.params@ == f.params@,
        p.wrapper.vis@ == f.vis@,
        p.wrapper.generics@ == f.generics@,
        p.wrapper.is_async == f.is_async,
        p.call.awaited == f.is_async,
        p.call.through_receiver == spec_has_receiver(f.params@),
{
}

/// Name ownership: the original function's name is attached to exactly one
/// of the two resulting functions. Under the flat strategy the original
/// keeps its name and the wrapper's derived name differs from it; under
/// the hidden-inner strategy the wrapper takes the original's name and the
/// hidden copy's internal name differs from it.
pub proof fn lemma_name_ownership(f: FnModel, strategy: Strategy, p: TransformPlan)
    requires
        plan_matches(f, strategy, p),
    ensures
        strategy is Flat ==> p.inner is KeptOriginal && p.wrapper.name@ != f.name@,
        strategy is HiddenInner ==> p.wrapper.name@ == f.name@ && (p.inner matches InnerFn::Hidden {
            name,
            placement: _,
        } ==> name@ != f.name@),
{
    reveal_strlit("_ffi");
    reveal_strlit("__");
    reveal_strlit("_inner");
    assert(wrapper_name_of(f.name@).len() == f.name@.len() + 4);
    assert(hidden_name_of(f.name@).len() == f.name@.len() + 8);
}

/// Strategy equivalence: the two strategies produce contract-equivalent
/// wrappers for the same input function. Everything but the naming, the
/// visibility of the original's copy and its placement agrees: same
/// parameter list, same asynchronous qualifier, same success type, same
/// forwarded arguments, same dispatch shape.
pub proof fn lemma_strategies_agree(f: FnModel, p_flat: TransformPlan, p_hidden: TransformPlan)
    requires
        plan_matches(f, Strategy::Flat, p_flat),
        plan_matches(f, Strategy::HiddenInner, p_hidden),
    ensures
        p_flat.wrapper.params@ == p_hidden.wrapper.params@,
        p_flat.wrapper.vis@ == p_hidden.wrapper.vis@,
        p_flat.wrapper.generics@ == p_hidden.wrapper.generics@,
        p_flat.wrapper.is_async == p_hidden.wrapper.is_async,
        p_flat.wrapper.ok_type@ == p_hidden.wrapper.ok_type@,
        texts_of(p_flat.call.args@) == texts_of(p_hidden.call.args@),
        p_flat.call.through_receiver == p_hidden.call.through_receiver,
        p_flat.call.awaited == p_hidden.call.awaited,
{
}

} // verus!
