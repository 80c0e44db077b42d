//! Flatten: project all 3-D geometry onto the Z=0 plane, counting each
//! coordinate group actually changed. A vertex already flat is neither
//! rewritten nor counted, so re-flattening a flattened drawing counts
//! nothing.

use vstd::prelude::*;
use crate::envelope::{DetailValue, ProcessResult};
use crate::model::{
    flat_point, spec_unit_z, z_is_zero, Entity, Geometry, Point3, NEG_ZERO_BITS, ONE_BITS,
    POS_ZERO_BITS,
};
use crate::params::{spec_lookup, ParamBag};
use crate::paths::{derive_output_path, spec_output_path};

verus! {

/// How many of the polyline's vertices stand off the Z=0 plane.
pub open spec fn raised_vertex_count(vs: Seq<Point3>) -> nat
    decreases vs.len(),
{
    if vs.len() == 0 {
        0nat
    } else {
        raised_vertex_count(vs.drop_last()) + (if z_is_zero(vs.last().z) {
            0nat
        } else {
            1nat
        })
    }
}

/// How many coordinate groups of the geometry the pass changes: one per
/// affected line, circle, arc, text or extrusion direction, one per raised
/// polyline vertex.
pub open spec fn geom_flat_count(g: Geometry) -> nat {
    match g {
        Geometry::Line { p1, p2, .. } => if z_is_zero(p1.z) && z_is_zero(p2.z) {
            0nat
        } else {
            1nat
        },
        Geometry::Circle { center } => if z_is_zero(center.z) {
            0nat
        } else {
            1nat
        },
        Geometry::Arc { center } => if z_is_zero(center.z) {
            0nat
        } else {
            1nat
        },
        Geometry::Polyline { vertices } => raised_vertex_count(vertices@),
        Geometry::LwPolyline { extrusion } => if extrusion == spec_unit_z() {
            0nat
        } else {
            1nat
        },
        Geometry::Text { location } => if z_is_zero(location.z) {
            0nat
        } else {
            1nat
        },
        Geometry::MText { insertion } => if z_is_zero(insertion.z) {
            0nat
        } else {
            1nat
        },
        Geometry::Insert => 0nat,
        Geometry::Other => 0nat,
    }
}

/// How many coordinate groups the pass changes over the whole collection.
pub open spec fn flatten_count(s: Seq<Entity>) -> nat
    decreases s.len(),
{
    if s.len() == 0 {
        0nat
    } else {
        flatten_count(s.drop_last()) + geom_flat_count(s.last().geometry)
    }
}

/// How one geometry comes out of the flattening pass.
pub open spec fn flatten_geom_rel(g: Geometry, h: Geometry) -> bool {
    match g {
        Geometry::Line { p1, p2, len_sq_bits } => if z_is_zero(p1.z) && z_is_zero(p2.z) {
            h == g
        } else {
            h == (Geometry::Line { p1: flat_point(p1), p2: flat_point(p2), len_sq_bits })
        },
        Geometry::Circle { center } => if z_is_zero(center.z) {
            h == g
        } else {
            h == (Geometry::Circle { center: flat_point(center) })
        },
        Geometry::Arc { center } => if z_is_zero(center.z) {
            h == g
        } else {
            h == (Geometry::Arc { center: flat_point(center) })
        },
        Geometry::Polyline { vertices } => h matches Geometry::Polyline { vertices: w } && w@.len()
            == vertices@.len() && (forall|j: int|
            0 <= j < vertices@.len() ==> #[trigger] w@[j] == (if z_is_zero(vertices@[j].z) {
                vertices@[j]
            } else {
                flat_point(vertices@[j])
            })),
        Geometry::LwPolyline { extrusion } => if extrusion == spec_unit_z() {
            h == g
        } else {
            h == (Geometry::LwPolyline { extrusion: spec_unit_z() })
        },
        Geometry::Text { location } => if z_is_zero(location.z) {
            h == g
        } else {
            h == (Geometry::Text { location: flat_point(location) })
        },
        Geometry::MText { insertion } => if z_is_zero(insertion.z) {
            h == g
        } else {
            h == (Geometry::MText { insertion: flat_point(insertion) })
        },
        Geometry::Insert => h == g,
        Geometry::Other => h == g,
    }
}

/// How one entity comes out: layer kept, geometry flattened.
pub open spec fn flatten_entity_rel(a: Entity, b: Entity) -> bool {
    b.layer == a.layer && flatten_geom_rel(a.geometry, b.geometry)
}

/// How the whole entity collection comes out.
pub open spec fn flatten_rel(pre: Seq<Entity>, post: Seq<Entity>) -> bool {
    &&& post.len() == pre.len()
    &&& forall|i: int| 0 <= i < pre.len() ==> flatten_entity_rel(pre[i], #[trigger] post[i])
}

/// Everything Flatten promises of its result envelope.
pub open spec fn flatten_result_ok(
    pre: Seq<Entity>,
    input: Seq<char>,
    pairs: Seq<(String, String)>,
    r: ProcessResult,
) -> bool {
    &&& r.status@ == "success"@
    &&& (r.output_file matches Some(p) && p@ == spec_output_path(
        input,
        spec_lookup(pairs, "output_path"@),
        "flattened"@,
    ))
    &&& r.message@ == "Flattened: all entities forced onto the Z=0 plane"@
    &&& r.details@.len() == 2
    &&& r.details@[0].0@ == "flattened_entities"@
    &&& r.details@[0].1 == DetailValue::Count(flatten_count(pre) as u64)
    &&& r.details@[1].0@ == "engine"@
    &&& (r.details@[1].1 matches DetailValue::Text(s) && s@ == "Rust Native DXF"@)
}

/// A prefix of the collection never counts more than the whole.
proof fn lemma_flatten_count_prefix_le(s: Seq<Entity>, i: int)
    requires
        0 <= i <= s.len(),
    ensures
        flatten_count(s.take(i)) <= flatten_count(s),
    decreases s.len() - i,
{
    if i == s.len() {
        assert(s.take(i) =~= s);
    } else {
        assert(s.take(i + 1).drop_last() =~= s.take(i));
        assert(s.take(i + 1).last() == s[i]);
        lemma_flatten_count_prefix_le(s, i + 1);
    }
}

/// Whether the flattening pass's coordinate-group count fits in usize.
/// `process` asks its caller for exactly this, so a caller that cannot see
/// the count checks it here first.
pub fn flatten_fits(entities: &Vec<Entity>) -> (r: bool)
    ensures
        r == (flatten_count(entities@) <= usize::MAX),
{
    let n = entities.len();
    let mut total: usize = 0;
    let mut i: usize = 0;
    proof {
        assert(entities@.take(0) =~= Seq::<Entity>::empty());
    }
    while i < n
        invariant
            i <= n,
            n == entities@.len(),
            total == flatten_count(entities@.take(i as int)),
        decreases n - i,
    {
        let add: usize = match &entities[i].geometry {
            Geometry::Line { p1, p2, .. } => {
                if !((p1.z == POS_ZERO_BITS || p1.z == NEG_ZERO_BITS) && (p2.z == POS_ZERO_BITS
                    || p2.z == NEG_ZERO_BITS)) {
                    1
                } else {
                    0
                }
            },
            Geometry::Circle { center } => {
                if !(center.z == POS_ZERO_BITS || center.z == NEG_ZERO_BITS) {
                    1
                } else {
                    0
                }
            },
            Geometry::Arc { center } => {
                if !(center.z == POS_ZERO_BITS || center.z == NEG_ZERO_BITS) {
                    1
                } else {
                    0
                }
            },
            Geometry::Polyline { vertices } => {
                let mut sub: usize = 0;
                let mut j: usize = 0;
                proof {
                    assert(vertices@.take(0) =~= Seq::<Point3>::empty());
                }
                while j < vertices.len()
                    invariant
                        j <= vertices@.len(),
                        sub <= j,
                        sub == raised_vertex_count(vertices@.take(j as int)),
                    decreases vertices@.len() - j,
                {
                    if !(vertices[j].z == POS_ZERO_BITS || vertices[j].z == NEG_ZERO_BITS) {
                        sub += 1;
                    }
                    proof {
                        assert(vertices@.take(j + 1).drop_last() =~= vertices@.take(j as int));
                        assert(vertices@.take(j + 1).last() == vertices@[j as int]);
                    }
                    j += 1;
                }
                proof {
                    assert(vertices@.take(vertices@.len() as int) =~= vertices@);
                }
                sub
            },
            Geometry::LwPolyline { extrusion } => {
                if !(extrusion.x == POS_ZERO_BITS && extrusion.y == POS_ZERO_BITS && extrusion.z
                    == ONE_BITS) {
                    1
                } else {
                    0
                }
            },
            Geometry::Text { location } => {
                if !(location.z == POS_ZERO_BITS || location.z == NEG_ZERO_BITS) {
                    1
                } else {
                    0
                }
            },
            Geometry::MText { insertion } => {
                if !(insertion.z == POS_ZERO_BITS || insertion.z == NEG_ZERO_BITS) {
                    1
                } else {
                    0
                }
            },
            Geometry::Insert => 0,
            Geometry::Other => 0,
        };
        proof {
            assert(entities@.take(i + 1).drop_last() =~= entities@.take(i as int));
            assert(entities@.take(i + 1).last() == entities@[i as int]);
            assert(add == geom_flat_count(entities@[i as int].geometry));
        }
        if add > usize::MAX - total {
            proof {
                lemma_flatten_count_prefix_le(entities@, i + 1);
            }
            return false;
        }
        total += add;
        i += 1;
    }
    proof {
        assert(entities@.take(n as int) =~= entities@);
    }
    true
}

/// The projection transformation.
pub struct Flattener;

impl Flattener {
    /// The transformation's human-readable label.
    pub fn name(&self) -> (r: &'static str)
        ensures
            r@ == "Flattener"@,
    {
        "Flattener"
    }

    /// Zeroes every z coordinate that is not already zero and resets skewed
    /// extrusion directions, counting each coordinate group changed.
    pub fn process(&self, input_path: &str, params: &ParamBag, entities: &mut Vec<Entity>) -> (r:
        ProcessResult)
        requires
            flatten_count(old(entities)@) <= usize::MAX,
        ensures
            flatten_rel(old(entities)@, final(entities)@),
            flatten_result_ok(old(entities)@, input_path@, params.pairs@, r),
    {
        let n = entities.len();
        let mut count: usize = 0;
        let mut i: usize = 0;
        proof {
            assert(old(entities)@.take(0) =~= Seq::<Entity>::empty());
        }
        while i < n
            invariant
                i <= n,
                n == old(entities)@.len(),
                entities@.len() == n,
                flatten_count(old(entities)@) <= usize::MAX,
                count == flatten_count(old(entities)@.take(i as int)),
                forall|j: int|
                    0 <= j < i ==> flatten_entity_rel(old(entities)@[j], #[trigger] entities@[j]),
                forall|j: int| i <= j < n ==> entities@[j] == old(entities)@[j],
            decreases n - i,
        {
            let add: usize = {
                let e = &mut entities[i];
                match &mut e.geometry {
                    Geometry::Line { p1, p2, .. } => {
                        if !((p1.z == POS_ZERO_BITS || p1.z == NEG_ZERO_BITS) && (p2.z
                            == POS_ZERO_BITS || p2.z == NEG_ZERO_BITS)) {
                            p1.z = POS_ZERO_BITS;
                            p2.z = POS_ZERO_BITS;
                            1
                        } else {
                            0
                        }
                    },
                    Geometry::Circle { center } => {
                        if !(center.z == POS_ZERO_BITS || center.z == NEG_ZERO_BITS) {
                            center.z = POS_ZERO_BITS;
                            1
                        } else {
                            0
                        }
                    },
                    Geometry::Arc { center } => {
                        if !(center.z == POS_ZERO_BITS || center.z == NEG_ZERO_BITS) {
                            center.z = POS_ZERO_BITS;
                            1
                        } else {
                            0
                        }
                    },
                    Geometry::Polyline { vertices } => {
                        let ghost vs0 = vertices@;
                        let mut sub: usize = 0;
                        let mut j: usize = 0;
                        proof {
                            assert(vs0.take(0) =~= Seq::<Point3>::empty());
                        }
                        while j < vertices.len()
                            invariant
                                j <= vs0.len(),
                                vertices@.len() == vs0.len(),
                                sub <= j,
                                sub == raised_vertex_count(vs0.take(j as int)),
                                forall|k: int|
                                    0 <= k < j ==> #[trigger] vertices@[k] == (if z_is_zero(
                                        vs0[k].z,
                                    ) {
                                        vs0[k]
                                    } else {
                                        flat_point(vs0[k])
                                    }),
                                forall|k: int| j <= k < vs0.len() ==> vertices@[k] == vs0[k],
                            decreases vs0.len() - j,
                        {
                            if !(vertices[j].z == POS_ZERO_BITS || vertices[j].z
                                == NEG_ZERO_BITS) {
                                let v = &mut vertices[j];
                                v.z = POS_ZERO_BITS;
                                sub += 1;
                            }
                            proof {
                                assert(vs0.take(j + 1).drop_last() =~= vs0.take(j as int));
                                assert(vs0.take(j + 1).last() == vs0[j as int]);
                            }
                            j += 1;
                        }
                        proof {
                            assert(vs0.take(vs0.len() as int) =~= vs0);
                        }
                        sub
                    },
                    Geometry::LwPolyline { extrusion } => {
                        if !(extrusion.x == POS_ZERO_BITS && extrusion.y == POS_ZERO_BITS
                            && extrusion.z == ONE_BITS) {
                            *extrusion = Point3 {
                                x: POS_ZERO_BITS,
                                y: POS_ZERO_BITS,
                                z: ONE_BITS,
                            };
                            1
                        } else {
                            0
                        }
                    },
                    Geometry::Text { location } => {
                        if !(location.z == POS_ZERO_BITS || location.z == NEG_ZERO_BITS) {
                            location.z = POS_ZERO_BITS;
                            1
                        } else {
                            0
                        }
                    },
                    Geometry::MText { insertion } => {
                        if !(insertion.z == POS_ZERO_BITS || insertion.z == NEG_ZERO_BITS) {
                            insertion.z = POS_ZERO_BITS;
                            1
                        } else {
                            0
                        }
                    },
                    Geometry::Insert => 0,
                    Geometry::Other => 0,
                }
            };
            proof {
                assert(flatten_entity_rel(old(entities)@[i as int], entities@[i as int]));
                assert(add == geom_flat_count(old(entities)@[i as int].geometry));
                assert(old(entities)@.take(i + 1).drop_last() =~= old(entities)@.take(i as int));
                assert(old(entities)@.take(i + 1).last() == old(entities)@[i as int]);
                lemma_flatten_count_prefix_le(old(entities)@, i + 1);
            }
            count += add;
            i += 1;
        }
        proof {
            assert(old(entities)@.take(n as int) =~= old(entities)@);
        }
        let dir = params.get("output_path");
        let output = derive_output_path(input_path, &dir, "flattened");
        let mut details: Vec<(String, DetailValue)> = Vec::new();
        details.push(("flattened_entities".to_owned(), DetailValue::Count(count as u64)));
        details.push(("engine".to_owned(), DetailValue::Text("Rust Native DXF".to_owned())));
        ProcessResult {
            status: "success".to_owned(),
            output_file: Some(output),
            message: "Flattened: all entities forced onto the Z=0 plane".to_owned(),
            details,
        }
    }
}

} // verus!
