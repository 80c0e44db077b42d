//! The engine's cross-function laws, each stated and proved over the spec
//! functions that the transformations' own contracts use.

use vstd::prelude::*;
use crate::model::{z_is_zero, Entity, Geometry, Point3};
use crate::paths::{
    fname_start, lemma_fname_start_bounds, lemma_stem_end_bounds, lemma_stem_end_char,
    spec_output_path, stem_end,
};
use crate::processors::flattener::{
    flatten_count, flatten_geom_rel, flatten_rel, geom_flat_count, raised_vertex_count,
};
use crate::processors::merger::{merge_count, merge_entity_rel, merge_rel};

verus! {

proof fn lemma_merge_count_zero(s: Seq<Entity>, target: Seq<char>)
    requires
        forall|i: int| 0 <= i < s.len() ==> #[trigger] s[i].layer@ == target,
    ensures
        merge_count(s, target) == 0,
    decreases s.len(),
{
    if s.len() > 0 {
        lemma_merge_count_zero(s.drop_last(), target);
    }
}

/// Law: merging layers is idempotent. Once every entity stands on the
/// target layer, a second merge with the same target modifies nothing: its
/// modified-count is zero and it returns the collection unchanged.
pub proof fn lemma_layer_merge_idempotent(
    pre: Seq<Entity>,
    once: Seq<Entity>,
    twice: Seq<Entity>,
    target: Seq<char>,
)
    requires
        merge_rel(pre, once, target),
        merge_rel(once, twice, target),
    ensures
        merge_count(once, target) == 0,
        twice == once,
{
    assert forall|i: int| 0 <= i < once.len() implies #[trigger] once[i].layer@ == target by {
        assert(merge_entity_rel(pre[i], once[i], target));
    }
    lemma_merge_count_zero(once, target);
    assert forall|i: int| 0 <= i < twice.len() implies #[trigger] twice[i] == once[i] by {
        assert(merge_entity_rel(once[i], twice[i], target));
    }
    assert(twice =~= once);
}

proof fn lemma_raised_count_zero(vs: Seq<Point3>)
    requires
        forall|k: int| 0 <= k < vs.len() ==> z_is_zero(#[trigger] vs[k].z),
    ensures
        raised_vertex_count(vs) == 0,
    decreases vs.len(),
{
    if vs.len() > 0 {
        lemma_raised_count_zero(vs.drop_last());
    }
}

proof fn lemma_flatten_count_zero(s: Seq<Entity>)
    requires
        forall|i: int| 0 <= i < s.len() ==> geom_flat_count(#[trigger] s[i].geometry) == 0,
    ensures
        flatten_count(s) == 0,
    decreases s.len(),
{
    if s.len() > 0 {
        lemma_flatten_count_zero(s.drop_last());
    }
}

/// Law: flattening is idempotent. A collection that came out of the
/// flattening pass has nothing left to flatten: re-flattening it counts
/// zero coordinate groups.
pub proof fn lemma_flatten_idempotent(pre: Seq<Entity>, once: Seq<Entity>)
    requires
        flatten_rel(pre, once),
    ensures
        flatten_count(once) == 0,
{
    assert forall|i: int| 0 <= i < once.len() implies geom_flat_count(
        #[trigger] once[i].geometry,
    ) == 0 by {
        assert(flatten_geom_rel(pre[i].geometry, once[i].geometry));
        match once[i].geometry {
            Geometry::Polyline { vertices } => {
                lemma_raised_count_zero(vertices@);
            },
            _ => {},
        }
    }
    lemma_flatten_count_zero(once);
}

/// Law: with no output directory override (the parameter absent or empty),
/// the derived output path always differs from the input path: a same-path
/// overwrite never occurs.
pub proof fn lemma_output_path_distinct(input: Seq<char>, suffix: Seq<char>)
    ensures
        spec_output_path(input, None, suffix) != input,
        spec_output_path(input, Some(Seq::<char>::empty()), suffix) != input,
{
    reveal_strlit("_");
    reveal_strlit(".dxf");
    lemma_fname_start_bounds(input);
    let fs = fname_start(input);
    let name = input.skip(fs);
    lemma_stem_end_bounds(name);
    lemma_stem_end_char(name);
    let se = stem_end(name);
    let out = spec_output_path(input, None, suffix);
    assert(out == input.take(fs) + (name.take(se) + "_"@ + suffix + ".dxf"@));
    assert(out.len() == fs + se + 1 + suffix.len() + 4);
    if se == name.len() {
        assert(out.len() > input.len());
    } else {
        assert(name[se] == '.');
        assert(input[fs + se] == name[se]);
        assert(out[fs + se] == (name.take(se) + "_"@ + suffix + ".dxf"@)[se]);
        assert(out[fs + se] == "_"@[0]);
        assert(out[fs + se] == '_');
        assert(out[fs + se] != input[fs + se]);
    }
    assert(spec_output_path(input, Some(Seq::<char>::empty()), suffix) == out);
}

} // verus!
