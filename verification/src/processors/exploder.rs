//! MarkForExplode: identify block references (Insert entities) as candidates
//! for expansion into primitive geometry, without performing the expansion.
//! Each Insert is moved to the `BLOCKS_TO_EXPLODE` sentinel layer.

use vstd::prelude::*;
use vstd::string::StringExecFns;
use crate::envelope::{DetailValue, ProcessResult};
use crate::model::{Entity, Geometry};
use crate::params::{spec_lookup, ParamBag};
use crate::paths::{derive_output_path, spec_output_path};
use crate::text::{spec_dec, u64_to_dec};

verus! {

/// Whether the entity is a block reference.
pub open spec fn is_insert(e: Entity) -> bool {
    e.geometry is Insert
}

/// How many entities are block references.
pub open spec fn insert_count(s: Seq<Entity>) -> nat
    decreases s.len(),
{
    if s.len() == 0 {
        0nat
    } else {
        insert_count(s.drop_last()) + (if is_insert(s.last()) {
            1nat
        } else {
            0nat
        })
    }
}

/// How one entity comes out of the marking pass.
pub open spec fn explode_entity_rel(a: Entity, b: Entity) -> bool {
    if is_insert(a) {
        b.layer@ == "BLOCKS_TO_EXPLODE"@ && b.geometry == a.geometry
    } else {
        b == a
    }
}

/// How the whole entity collection comes out.
pub open spec fn explode_rel(pre: Seq<Entity>, post: Seq<Entity>) -> bool {
    &&& post.len() == pre.len()
    &&& forall|i: int| 0 <= i < pre.len() ==> explode_entity_rel(pre[i], #[trigger] post[i])
}

/// The message: how many were marked, or that none were found.
pub open spec fn spec_explode_message(marked: nat) -> Seq<char> {
    if marked > 0 {
        "Marked "@ + spec_dec(marked) + " block references; moved to the BLOCKS_TO_EXPLODE layer"@
    } else {
        "No block references found"@
    }
}

/// Everything MarkForExplode promises of its result envelope.
pub open spec fn explode_result_ok(
    pre: Seq<Entity>,
    input: Seq<char>,
    pairs: Seq<(String, String)>,
    r: ProcessResult,
) -> bool {
    &&& r.status@ == "success"@
    &&& (r.output_file matches Some(p) && p@ == spec_output_path(
        input,
        spec_lookup(pairs, "output_path"@),
        "marked"@,
    ))
    &&& r.message@ == spec_explode_message(insert_count(pre))
    &&& r.details@.len() == 3
    &&& r.details@[0].0@ == "marked_inserts"@
    &&& r.details@[0].1 == DetailValue::Count(insert_count(pre) as u64)
    &&& r.details@[1].0@ == "note"@
    &&& (r.details@[1].1 matches DetailValue::Text(t) && t@
        == "Block references moved to the BLOCKS_TO_EXPLODE layer; expansion not yet performed"@)
    &&& r.details@[2].0@ == "engine"@
    &&& (r.details@[2].1 matches DetailValue::Text(s) && s@ == "Rust Native DXF"@)
}

/// The block-marking transformation.
pub struct Exploder;

impl Exploder {
    /// The transformation's human-readable label.
    pub fn name(&self) -> (r: &'static str)
        ensures
            r@ == "Exploder"@,
    {
        "Exploder"
    }

    /// Moves every Insert entity to the sentinel layer, touches nothing
    /// else, and reports exactly how many block references were marked.
    pub fn process(&self, input_path: &str, params: &ParamBag, entities: &mut Vec<Entity>) -> (r:
        ProcessResult)
        ensures
            explode_rel(old(entities)@, final(entities)@),
            explode_result_ok(old(entities)@, input_path@, params.pairs@, r),
    {
        let n = entities.len();
        let mut count: usize = 0;
        let mut i: usize = 0;
        proof {
            assert(old(entities)@.take(0) =~= Seq::<Entity>::empty());
        }
        while i < n
            invariant
                i <= n,
                n == old(entities)@.len(),
                entities@.len() == n,
                count <= i,
                count == insert_count(old(entities)@.take(i as int)),
                forall|j: int|
                    0 <= j < i ==> explode_entity_rel(old(entities)@[j], #[trigger] entities@[j]),
                forall|j: int| i <= j < n ==> entities@[j] == old(entities)@[j],
            decreases n - i,
        {
            let ins = match &entities[i].geometry {
                Geometry::Insert => true,
                _ => false,
            };
            if ins {
                let e = &mut entities[i];
                e.layer = "BLOCKS_TO_EXPLODE".to_owned();
                count += 1;
            }
            proof {
                assert(old(entities)@.take(i + 1).drop_last() =~= old(entities)@.take(i as int));
                assert(old(entities)@.take(i + 1).last() == old(entities)@[i as int]);
            }
            i += 1;
        }
        proof {
            assert(old(entities)@.take(n as int) =~= old(entities)@);
        }
        let message: String = if count > 0 {
            let mut m = "Marked ".to_owned();
            m.append(u64_to_dec(count as u64).as_str());
            m.append(" block references; moved to the BLOCKS_TO_EXPLODE layer");
            proof {
                assert(m@ =~= spec_explode_message(insert_count(old(entities)@)));
            }
            m
        } else {
            "No block references found".to_owned()
        };
        let dir = params.get("output_path");
        let output = derive_output_path(input_path, &dir, "marked");
        let mut details: Vec<(String, DetailValue)> = Vec::new();
        details.push(("marked_inserts".to_owned(), DetailValue::Count(count as u64)));
        details.push((
            "note".to_owned(),
            DetailValue::Text(
                "Block references moved to the BLOCKS_TO_EXPLODE layer; expansion not yet performed".to_owned(),
            ),
        ));
        details.push(("engine".to_owned(), DetailValue::Text("Rust Native DXF".to_owned())));
        ProcessResult {
            status: "success".to_owned(),
            output_file: Some(output),
            message,
            details,
        }
    }
}

} // verus!
