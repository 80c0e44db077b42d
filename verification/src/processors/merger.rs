//! LayerMerge: consolidate every entity's layer assignment onto one target
//! layer, read from the `target_layer` parameter and defaulting to `"0"`.
//! Entities already on the target layer are left untouched.

use vstd::prelude::*;
use crate::envelope::{DetailValue, ProcessResult};
use crate::model::Entity;
use crate::params::{spec_lookup, ParamBag};
use crate::paths::{derive_output_path, spec_output_path};
use crate::text::str_eq;

verus! {

/// The consolidation target: the `target_layer` parameter, or the drawing
/// format's implicit default layer `"0"`.
pub open spec fn spec_target_layer(pairs: Seq<(String, String)>) -> Seq<char> {
    match spec_lookup(pairs, "target_layer"@) {
        Some(v) => v,
        None => "0"@,
    }
}

/// How many entities are not yet on the target layer.
pub open spec fn merge_count(s: Seq<Entity>, target: Seq<char>) -> nat
    decreases s.len(),
{
    if s.len() == 0 {
        0nat
    } else {
        merge_count(s.drop_last(), target) + (if s.last().layer@ == target {
            0nat
        } else {
            1nat
        })
    }
}

/// How one entity comes out of the merge pass.
pub open spec fn merge_entity_rel(a: Entity, b: Entity, target: Seq<char>) -> bool {
    if a.layer@ == target {
        b == a
    } else {
        b.layer@ == target && b.geometry == a.geometry
    }
}

/// How the whole entity collection comes out: same length, every entity on
/// the target layer, geometry untouched.
pub open spec fn merge_rel(pre: Seq<Entity>, post: Seq<Entity>, target: Seq<char>) -> bool {
    &&& post.len() == pre.len()
    &&& forall|i: int| 0 <= i < pre.len() ==> merge_entity_rel(pre[i], #[trigger] post[i], target)
}

/// Everything LayerMerge promises of its result envelope.
pub open spec fn merge_result_ok(
    pre: Seq<Entity>,
    input: Seq<char>,
    pairs: Seq<(String, String)>,
    r: ProcessResult,
) -> bool {
    &&& r.status@ == "success"@
    &&& (r.output_file matches Some(p) && p@ == spec_output_path(
        input,
        spec_lookup(pairs, "output_path"@),
        "merged"@,
    ))
    &&& r.message@ == "Layers merged onto the target layer"@
    &&& r.details@.len() == 3
    &&& r.details@[0].0@ == "modified_entities"@
    &&& r.details@[0].1 == DetailValue::Count(merge_count(pre, spec_target_layer(pairs)) as u64)
    &&& r.details@[1].0@ == "target_layer"@
    &&& (r.details@[1].1 matches DetailValue::Text(t) && t@ == spec_target_layer(pairs))
    &&& r.details@[2].0@ == "engine"@
    &&& (r.details@[2].1 matches DetailValue::Text(s) && s@ == "Rust Native DXF"@)
}

/// The layer-consolidation transformation.
pub struct LayerMerger;

impl LayerMerger {
    /// The transformation's human-readable label.
    pub fn name(&self) -> (r: &'static str)
        ensures
            r@ == "Layer Merger"@,
    {
        "Layer Merger"
    }

    /// Reassigns every entity to the target layer, counting the entities
    /// whose layer actually changed.
    pub fn process(&self, input_path: &str, params: &ParamBag, entities: &mut Vec<Entity>) -> (r:
        ProcessResult)
        ensures
            merge_rel(old(entities)@, final(entities)@, spec_target_layer(params.pairs@)),
            merge_result_ok(old(entities)@, input_path@, params.pairs@, r),
    {
        let target: String = match params.get("target_layer") {
            Some(v) => v,
            None => "0".to_owned(),
        };
        let ghost tgt = spec_target_layer(params.pairs@);
        let n = entities.len();
        let mut count: usize = 0;
        let mut i: usize = 0;
        proof {
            assert(old(entities)@.take(0) =~= Seq::<Entity>::empty());
        }
        while i < n
            invariant
                i <= n,
                n == old(entities)@.len(),
                entities@.len() == n,
                count <= i,
                target@ == tgt,
                count == merge_count(old(entities)@.take(i as int), tgt),
                forall|j: int|
                    0 <= j < i ==> merge_entity_rel(old(entities)@[j], #[trigger] entities@[j], tgt),
                forall|j: int| i <= j < n ==> entities@[j] == old(entities)@[j],
            decreases n - i,
        {
            if !str_eq(entities[i].layer.as_str(), target.as_str()) {
                let e = &mut entities[i];
                e.layer = target.clone();
                count += 1;
            }
            proof {
                assert(old(entities)@.take(i + 1).drop_last() =~= old(entities)@.take(i as int));
                assert(old(entities)@.take(i + 1).last() == old(entities)@[i as int]);
            }
            i += 1;
        }
        proof {
            assert(old(entities)@.take(n as int) =~= old(entities)@);
        }
        let dir = params.get("output_path");
        let output = derive_output_path(input_path, &dir, "merged");
        let mut details: Vec<(String, DetailValue)> = Vec::new();
        details.push(("modified_entities".to_owned(), DetailValue::Count(count as u64)));
        details.push(("target_layer".to_owned(), DetailValue::Text(target)));
        details.push(("engine".to_owned(), DetailValue::Text("Rust Native DXF".to_owned())));
        ProcessResult {
            status: "success".to_owned(),
            output_file: Some(output),
            message: "Layers merged onto the target layer".to_owned(),
            details,
        }
    }
}

} // verus!
