//! SmartClean: mark degenerate geometry for later removal rather than
//! deleting it. A Line whose squared length lies below the near-zero
//! threshold is moved to the `TRASH_AUTO_CLEAN` sentinel layer; nothing is
//! ever removed from the drawing.

use vstd::prelude::*;
use crate::envelope::{DetailValue, ProcessResult};
use crate::model::{Entity, Geometry, LEN_SQ_EPS_BITS};
use crate::params::{spec_lookup, ParamBag};
use crate::paths::{derive_output_path, spec_output_path};

verus! {

/// Whether the entity is a line of squared length below the threshold.
pub open spec fn is_degenerate_line(e: Entity) -> bool {
    match e.geometry {
        Geometry::Line { len_sq_bits, .. } => len_sq_bits < LEN_SQ_EPS_BITS,
        _ => false,
    }
}

/// How many entities are degenerate lines.
pub open spec fn clean_count(s: Seq<Entity>) -> nat
    decreases s.len(),
{
    if s.len() == 0 {
        0nat
    } else {
        clean_count(s.drop_last()) + (if is_degenerate_line(s.last()) {
            1nat
        } else {
            0nat
        })
    }
}

/// How one entity comes out of the cleaning pass.
pub open spec fn clean_entity_rel(a: Entity, b: Entity) -> bool {
    if is_degenerate_line(a) {
        b.layer@ == "TRASH_AUTO_CLEAN"@ && b.geometry == a.geometry
    } else {
        b == a
    }
}

/// How the whole entity collection comes out: same length, each entity
/// cleaned in place.
pub open spec fn clean_rel(pre: Seq<Entity>, post: Seq<Entity>) -> bool {
    &&& post.len() == pre.len()
    &&& forall|i: int| 0 <= i < pre.len() ==> clean_entity_rel(pre[i], #[trigger] post[i])
}

/// Everything SmartClean promises of its result envelope.
pub open spec fn clean_result_ok(
    pre: Seq<Entity>,
    input: Seq<char>,
    pairs: Seq<(String, String)>,
    r: ProcessResult,
) -> bool {
    &&& r.status@ == "success"@
    &&& (r.output_file matches Some(p) && p@ == spec_output_path(
        input,
        spec_lookup(pairs, "output_path"@),
        "cleaned"@,
    ))
    &&& r.message@ == "Degenerate lines moved to the TRASH_AUTO_CLEAN layer, not deleted"@
    &&& r.details@.len() == 2
    &&& r.details@[0].0@ == "moved_to_trash_count"@
    &&& r.details@[0].1 == DetailValue::Count(clean_count(pre) as u64)
    &&& r.details@[1].0@ == "engine"@
    &&& (r.details@[1].1 matches DetailValue::Text(s) && s@ == "Rust Native DXF"@)
}

/// The cleanup transformation.
pub struct SmartCleaner;

impl SmartCleaner {
    /// The transformation's human-readable label.
    pub fn name(&self) -> (r: &'static str)
        ensures
            r@ == "Smart Cleaner"@,
    {
        "Smart Cleaner"
    }

    /// Moves every degenerate line to the sentinel layer, touches nothing
    /// else, and reports how many entities were moved.
    pub fn process(&self, input_path: &str, params: &ParamBag, entities: &mut Vec<Entity>) -> (r:
        ProcessResult)
        ensures
            clean_rel(old(entities)@, final(entities)@),
            clean_result_ok(old(entities)@, input_path@, params.pairs@, r),
    {
        let n = entities.len();
        let mut count: usize = 0;
        let mut i: usize = 0;
        proof {
            assert(old(entities)@.take(0) =~= Seq::<Entity>::empty());
        }
        while i < n
            invariant
                i <= n,
                n == old(entities)@.len(),
                entities@.len() == n,
                count <= i,
                count == clean_count(old(entities)@.take(i as int)),
                forall|j: int|
                    0 <= j < i ==> clean_entity_rel(old(entities)@[j], #[trigger] entities@[j]),
                forall|j: int| i <= j < n ==> entities@[j] == old(entities)@[j],
            decreases n - i,
        {
            let deg = match &entities[i].geometry {
                Geometry::Line { len_sq_bits, .. } => *len_sq_bits < LEN_SQ_EPS_BITS,
                _ => false,
            };
            if deg {
                let e = &mut entities[i];
                e.layer = "TRASH_AUTO_CLEAN".to_owned();
                count += 1;
            }
            proof {
                assert(old(entities)@.take(i + 1).drop_last() =~= old(entities)@.take(i as int));
                assert(old(entities)@.take(i + 1).last() == old(entities)@[i as int]);
            }
            i += 1;
        }
        proof {
            assert(old(entities)@.take(n as int) =~= old(entities)@);
        }
        let dir = params.get("output_path");
        let output = derive_output_path(input_path, &dir, "cleaned");
        let mut details: Vec<(String, DetailValue)> = Vec::new();
        details.push(("moved_to_trash_count".to_owned(), DetailValue::Count(count as u64)));
        details.push(("engine".to_owned(), DetailValue::Text("Rust Native DXF".to_owned())));
        ProcessResult {
            status: "success".to_owned(),
            output_file: Some(output),
            message: "Degenerate lines moved to the TRASH_AUTO_CLEAN layer, not deleted".to_owned(),
            details,
        }
    }
}

} // verus!
