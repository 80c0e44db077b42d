//! The operation factory: a pure lookup from an operation name to a
//! transformation, over the fixed, closed set of names, and the uniform
//! dispatch through which a resolved operation is applied.

use vstd::prelude::*;
use vstd::string::StringExecFns;
use crate::envelope::ProcessResult;
use crate::model::Entity;
use crate::params::ParamBag;
use crate::processors::cleaner::{clean_rel, clean_result_ok, SmartCleaner};
use crate::processors::exploder::{explode_rel, explode_result_ok, Exploder};
use crate::processors::flattener::{flatten_count, flatten_rel, flatten_result_ok, Flattener};
use crate::processors::merger::{merge_rel, merge_result_ok, spec_target_layer, LayerMerger};
use crate::text::str_eq;

verus! {

/// A resolved transformation, ready to apply.
pub enum Operation {
    Clean(SmartCleaner),
    Merge(LayerMerger),
    Flatten(Flattener),
    Explode(Exploder),
}

/// Whether the name belongs to the closed set of operation names.
pub open spec fn is_known_action(name: Seq<char>) -> bool {
    ||| name == "smart_clean"@
    ||| name == "layer_merge"@
    ||| name == "flatten"@
    ||| name == "explode"@
}

/// The factory.
pub struct ProcessorFactory;

impl ProcessorFactory {
    /// Resolves an operation name; `None` exactly on unrecognized names.
    pub fn create(action_type: &str) -> (r: Option<Operation>)
        ensures
            action_type@ == "smart_clean"@ ==> (r matches Some(op) && op is Clean),
            action_type@ == "layer_merge"@ ==> (r matches Some(op) && op is Merge),
            action_type@ == "flatten"@ ==> (r matches Some(op) && op is Flatten),
            action_type@ == "explode"@ ==> (r matches Some(op) && op is Explode),
            !is_known_action(action_type@) <==> r is None,
    {
        proof {
            reveal_strlit("smart_clean");
            reveal_strlit("layer_merge");
            reveal_strlit("flatten");
            reveal_strlit("explode");
            assert("smart_clean"@[0] == 's');
            assert("layer_merge"@[0] == 'l');
            assert("flatten"@[0] == 'f');
            assert("explode"@[0] == 'e');
            assert("smart_clean"@ != "layer_merge"@);
            assert("smart_clean"@ != "flatten"@);
            assert("smart_clean"@ != "explode"@);
            assert("layer_merge"@ != "flatten"@);
            assert("layer_merge"@ != "explode"@);
            assert("flatten"@ != "explode"@);
        }
        if str_eq(action_type, "smart_clean") {
            Some(Operation::Clean(SmartCleaner))
        } else if str_eq(action_type, "layer_merge") {
            Some(Operation::Merge(LayerMerger))
        } else if str_eq(action_type, "flatten") {
            Some(Operation::Flatten(Flattener))
        } else if str_eq(action_type, "explode") {
            Some(Operation::Explode(Exploder))
        } else {
            None
        }
    }
}

impl Operation {
    /// The resolved transformation's human-readable label.
    pub fn name(&self) -> (r: &'static str)
        ensures
            self is Clean ==> r@ == "Smart Cleaner"@,
            self is Merge ==> r@ == "Layer Merger"@,
            self is Flatten ==> r@ == "Flattener"@,
            self is Explode ==> r@ == "Exploder"@,
    {
        match self {
            Operation::Clean(p) => p.name(),
            Operation::Merge(p) => p.name(),
            Operation::Flatten(p) => p.name(),
            Operation::Explode(p) => p.name(),
        }
    }

    /// Applies the resolved transformation: one mutation pass over the
    /// entities, one derived output path, one result envelope.
    pub fn process(&self, input_path: &str, params: &ParamBag, entities: &mut Vec<Entity>) -> (r:
        ProcessResult)
        requires
            self is Flatten ==> flatten_count(old(entities)@) <= usize::MAX,
        ensures
            match self {
                Operation::Clean(_) => clean_rel(old(entities)@, final(entities)@)
                    && clean_result_ok(old(entities)@, input_path@, params.pairs@, r),
                Operation::Merge(_) => merge_rel(
                    old(entities)@,
                    final(entities)@,
                    spec_target_layer(params.pairs@),
                ) && merge_result_ok(old(entities)@, input_path@, params.pairs@, r),
                Operation::Flatten(_) => flatten_rel(old(entities)@, final(entities)@)
                    && flatten_result_ok(old(entities)@, input_path@, params.pairs@, r),
                Operation::Explode(_) => explode_rel(old(entities)@, final(entities)@)
                    && explode_result_ok(old(entities)@, input_path@, params.pairs@, r),
            },
    {
        match self {
            Operation::Clean(p) => p.process(input_path, params, entities),
            Operation::Merge(p) => p.process(input_path, params, entities),
            Operation::Flatten(p) => p.process(input_path, params, entities),
            Operation::Explode(p) => p.process(input_path, params, entities),
        }
    }
}

/// The error message for an unresolved operation name.
pub fn unknown_action_message(action_type: &str) -> (r: String)
    ensures
        r@ == "Unknown action type: "@ + action_type@,
{
    let mut m = "Unknown action type: ".to_owned();
    m.append(action_type);
    m
}

} // verus!
