use cad_processor::envelope::{DetailValue, ProcessResult};
use cad_processor::factory::{unknown_action_message, Operation, ProcessorFactory};
use cad_processor::model::{Entity, Geometry, Point3};
use cad_processor::params::ParamBag;
use cad_processor::processors::cleaner::SmartCleaner;
use cad_processor::processors::exploder::Exploder;
use cad_processor::processors::flattener::{flatten_fits, Flattener};
use cad_processor::processors::merger::LayerMerger;

fn pt(x: f64, y: f64, z: f64) -> Point3 {
    Point3 { x: x.to_bits(), y: y.to_bits(), z: z.to_bits() }
}

fn line(a: (f64, f64, f64), b: (f64, f64, f64)) -> Geometry {
    let dx = a.0 - b.0;
    let dy = a.1 - b.1;
    let dz = a.2 - b.2;
    Geometry::Line {
        p1: pt(a.0, a.1, a.2),
        p2: pt(b.0, b.1, b.2),
        len_sq_bits: (dx * dx + dy * dy + dz * dz).to_bits(),
    }
}

fn ent(layer: &str, g: Geometry) -> Entity {
    Entity { layer: layer.to_string(), geometry: g }
}

fn count_detail(r: &ProcessResult, key: &str) -> u64 {
    for (k, v) in &r.details {
        if k == key {
            if let DetailValue::Count(n) = v {
                return *n;
            }
        }
    }
    panic!("missing count detail {}", key);
}

fn text_detail(r: &ProcessResult, key: &str) -> String {
    for (k, v) in &r.details {
        if k == key {
            if let DetailValue::Text(s) = v {
                return s.clone();
            }
        }
    }
    panic!("missing text detail {}", key);
}

#[test]
fn clean_moves_zero_length_line_to_trash() {
    let mut entities = vec![ent("WALLS", line((0.0, 0.0, 5.0), (0.0, 0.0, 5.0)))];
    let params = ParamBag::new();
    let r = SmartCleaner.process("plan.dxf", &params, &mut entities);
    assert_eq!(r.status, "success");
    assert_eq!(entities.len(), 1);
    assert_eq!(entities[0].layer, "TRASH_AUTO_CLEAN");
    assert_eq!(count_detail(&r, "moved_to_trash_count"), 1);
    assert_eq!(text_detail(&r, "engine"), "Rust Native DXF");
    assert_eq!(r.output_file.as_deref(), Some("plan_cleaned.dxf"));
}

#[test]
fn clean_threshold_is_one_millionth() {
    // Squared length just above the threshold stays; below it moves.
    let mut entities = vec![
        ent("A", line((0.0, 0.0, 0.0), (0.0011, 0.0, 0.0))),
        ent("B", line((0.0, 0.0, 0.0), (0.0005, 0.0, 0.0))),
    ];
    let params = ParamBag::new();
    let r = SmartCleaner.process("plan.dxf", &params, &mut entities);
    assert_eq!(entities[0].layer, "A");
    assert_eq!(entities[1].layer, "TRASH_AUTO_CLEAN");
    assert_eq!(count_detail(&r, "moved_to_trash_count"), 1);
}

#[test]
fn clean_never_deletes_entities() {
    let mut entities = vec![
        ent("A", line((0.0, 0.0, 0.0), (0.0, 0.0, 0.0))),
        ent("B", Geometry::Circle { center: pt(1.0, 2.0, 3.0) }),
        ent("C", Geometry::Insert),
        ent("D", line((1.0, 1.0, 1.0), (2.0, 2.0, 2.0))),
    ];
    let params = ParamBag::new();
    let r = SmartCleaner.process("plan.dxf", &params, &mut entities);
    assert_eq!(entities.len(), 4);
    assert_eq!(count_detail(&r, "moved_to_trash_count"), 1);
    // Non-line entities are untouched, even degenerate-looking ones.
    assert_eq!(entities[1].layer, "B");
    assert_eq!(entities[2].layer, "C");
    assert_eq!(entities[3].layer, "D");
}

#[test]
fn merge_consolidates_all_layers() {
    let mut entities = vec![
        ent("A", line((0.0, 0.0, 0.0), (1.0, 0.0, 0.0))),
        ent("B", Geometry::Circle { center: pt(0.0, 0.0, 0.0) }),
        ent("0", Geometry::Insert),
    ];
    let mut params = ParamBag::new();
    params.put("target_layer".to_string(), "WALLS".to_string());
    let r = LayerMerger.process("plan.dxf", &params, &mut entities);
    for e in &entities {
        assert_eq!(e.layer, "WALLS");
    }
    assert_eq!(count_detail(&r, "modified_entities"), 3);
    assert_eq!(text_detail(&r, "target_layer"), "WALLS");
    assert_eq!(r.output_file.as_deref(), Some("plan_merged.dxf"));
}

#[test]
fn merge_defaults_to_layer_zero() {
    let mut entities = vec![ent("A", Geometry::Other), ent("0", Geometry::Other)];
    let params = ParamBag::new();
    let r = LayerMerger.process("plan.dxf", &params, &mut entities);
    assert_eq!(entities[0].layer, "0");
    assert_eq!(entities[1].layer, "0");
    assert_eq!(count_detail(&r, "modified_entities"), 1);
    assert_eq!(text_detail(&r, "target_layer"), "0");
}

#[test]
fn merge_twice_modifies_nothing_the_second_time() {
    let mut entities = vec![
        ent("A", Geometry::Other),
        ent("B", Geometry::Circle { center: pt(1.0, 2.0, 3.0) }),
        ent("WALLS", Geometry::Insert),
    ];
    let mut params = ParamBag::new();
    params.put("target_layer".to_string(), "WALLS".to_string());
    let first = LayerMerger.process("plan.dxf", &params, &mut entities);
    assert_eq!(count_detail(&first, "modified_entities"), 2);
    let layers_after_first: Vec<String> = entities.iter().map(|e| e.layer.clone()).collect();
    let second = LayerMerger.process("plan.dxf", &params, &mut entities);
    assert_eq!(count_detail(&second, "modified_entities"), 0);
    let layers_after_second: Vec<String> = entities.iter().map(|e| e.layer.clone()).collect();
    assert_eq!(layers_after_first, layers_after_second);
}

#[test]
fn flatten_projects_circle_center() {
    let mut entities = vec![ent("0", Geometry::Circle { center: pt(1.0, 2.0, 7.0) })];
    let params = ParamBag::new();
    let r = Flattener.process("plan.dxf", &params, &mut entities);
    match &entities[0].geometry {
        Geometry::Circle { center } => {
            assert_eq!(center.x, 1.0f64.to_bits());
            assert_eq!(center.y, 2.0f64.to_bits());
            assert_eq!(center.z, 0.0f64.to_bits());
        },
        _ => panic!("geometry variant changed"),
    }
    assert_eq!(count_detail(&r, "flattened_entities"), 1);
    assert_eq!(r.output_file.as_deref(), Some("plan_flattened.dxf"));
}

#[test]
fn flatten_counts_polyline_per_vertex() {
    let vertices = vec![pt(0.0, 0.0, 0.0), pt(1.0, 0.0, 4.0), pt(2.0, 0.0, 5.0)];
    let mut entities = vec![ent("0", Geometry::Polyline { vertices })];
    let params = ParamBag::new();
    let r = Flattener.process("plan.dxf", &params, &mut entities);
    assert_eq!(count_detail(&r, "flattened_entities"), 2);
    match &entities[0].geometry {
        Geometry::Polyline { vertices } => {
            for v in vertices {
                assert_eq!(v.z, 0.0f64.to_bits());
            }
        },
        _ => panic!("geometry variant changed"),
    }
}

#[test]
fn flatten_counts_line_once_and_zeroes_both_ends() {
    let mut entities = vec![ent("0", line((0.0, 0.0, 3.0), (1.0, 0.0, 0.0)))];
    let params = ParamBag::new();
    let r = Flattener.process("plan.dxf", &params, &mut entities);
    assert_eq!(count_detail(&r, "flattened_entities"), 1);
    match &entities[0].geometry {
        Geometry::Line { p1, p2, .. } => {
            assert_eq!(p1.z, 0.0f64.to_bits());
            assert_eq!(p2.z, 0.0f64.to_bits());
        },
        _ => panic!("geometry variant changed"),
    }
}

#[test]
fn flatten_leaves_negative_zero_line_alone() {
    // Both z coordinates compare equal to 0.0, so the line is not rewritten.
    let mut entities = vec![ent("0", line((0.0, 0.0, -0.0), (1.0, 0.0, -0.0)))];
    let params = ParamBag::new();
    let r = Flattener.process("plan.dxf", &params, &mut entities);
    assert_eq!(count_detail(&r, "flattened_entities"), 0);
    match &entities[0].geometry {
        Geometry::Line { p1, .. } => assert_eq!(p1.z, (-0.0f64).to_bits()),
        _ => panic!("geometry variant changed"),
    }
}

#[test]
fn flatten_resets_skewed_extrusion_direction() {
    let mut entities = vec![
        ent("0", Geometry::LwPolyline { extrusion: pt(0.0, 0.0, 2.0) }),
        // The vector differs from (0, 0, 1) in x alone: still a reset.
        ent("0", Geometry::LwPolyline { extrusion: pt(0.5, 0.0, 1.0) }),
        // Already the canonical +Z unit vector: left alone, not counted.
        ent("0", Geometry::LwPolyline { extrusion: pt(0.0, 0.0, 1.0) }),
    ];
    let params = ParamBag::new();
    let r = Flattener.process("plan.dxf", &params, &mut entities);
    assert_eq!(count_detail(&r, "flattened_entities"), 2);
    for e in &entities {
        match &e.geometry {
            Geometry::LwPolyline { extrusion } => {
                assert_eq!(extrusion.x, 0.0f64.to_bits());
                assert_eq!(extrusion.y, 0.0f64.to_bits());
                assert_eq!(extrusion.z, 1.0f64.to_bits());
            },
            _ => panic!("geometry variant changed"),
        }
    }
}

#[test]
fn flatten_twice_counts_zero_the_second_time() {
    let mut entities = vec![
        ent("0", line((0.0, 0.0, 3.0), (1.0, 0.0, 2.0))),
        ent("0", Geometry::Circle { center: pt(1.0, 2.0, 7.0) }),
        ent("0", Geometry::Polyline { vertices: vec![pt(0.0, 0.0, 1.0), pt(0.0, 0.0, 0.0)] }),
        ent("0", Geometry::LwPolyline { extrusion: pt(0.0, 0.0, -1.0) }),
        ent("0", Geometry::Text { location: pt(0.0, 0.0, 9.0) }),
        ent("0", Geometry::MText { insertion: pt(0.0, 0.0, 9.0) }),
        ent("0", Geometry::Insert),
    ];
    let params = ParamBag::new();
    let first = Flattener.process("plan.dxf", &params, &mut entities);
    assert_eq!(count_detail(&first, "flattened_entities"), 6);
    let second = Flattener.process("plan.dxf", &params, &mut entities);
    assert_eq!(count_detail(&second, "flattened_entities"), 0);
}

#[test]
fn flatten_fits_accepts_ordinary_drawings() {
    let entities = vec![
        ent("0", line((0.0, 0.0, 3.0), (1.0, 0.0, 2.0))),
        ent("0", Geometry::Polyline { vertices: vec![pt(0.0, 0.0, 1.0); 100] }),
        ent("0", Geometry::Insert),
    ];
    assert!(flatten_fits(&entities));
}

#[test]
fn explode_marks_every_insert() {
    let mut entities = vec![
        ent("A", Geometry::Insert),
        ent("B", line((0.0, 0.0, 0.0), (1.0, 0.0, 0.0))),
        ent("C", Geometry::Insert),
        ent("D", line((0.0, 0.0, 0.0), (2.0, 0.0, 0.0))),
        ent("E", Geometry::Insert),
    ];
    let params = ParamBag::new();
    let r = Exploder.process("plan.dxf", &params, &mut entities);
    assert_eq!(count_detail(&r, "marked_inserts"), 3);
    assert_eq!(entities[0].layer, "BLOCKS_TO_EXPLODE");
    assert_eq!(entities[2].layer, "BLOCKS_TO_EXPLODE");
    assert_eq!(entities[4].layer, "BLOCKS_TO_EXPLODE");
    // The lines are untouched.
    assert_eq!(entities[1].layer, "B");
    assert_eq!(entities[3].layer, "D");
    assert_eq!(r.message, "Marked 3 block references; moved to the BLOCKS_TO_EXPLODE layer");
    assert_eq!(r.output_file.as_deref(), Some("plan_marked.dxf"));
}

#[test]
fn explode_reports_when_nothing_is_found() {
    let mut entities = vec![ent("A", line((0.0, 0.0, 0.0), (1.0, 0.0, 0.0)))];
    let params = ParamBag::new();
    let r = Exploder.process("plan.dxf", &params, &mut entities);
    assert_eq!(count_detail(&r, "marked_inserts"), 0);
    assert_eq!(r.message, "No block references found");
    assert_eq!(entities[0].layer, "A");
}

#[test]
fn factory_resolves_the_four_operation_names() {
    assert_eq!(ProcessorFactory::create("smart_clean").unwrap().name(), "Smart Cleaner");
    assert_eq!(ProcessorFactory::create("layer_merge").unwrap().name(), "Layer Merger");
    assert_eq!(ProcessorFactory::create("flatten").unwrap().name(), "Flattener");
    assert_eq!(ProcessorFactory::create("explode").unwrap().name(), "Exploder");
}

#[test]
fn factory_rejects_unknown_names() {
    assert!(ProcessorFactory::create("nonexistent_op").is_none());
    assert!(ProcessorFactory::create("").is_none());
    assert!(ProcessorFactory::create("SMART_CLEAN").is_none());
    assert_eq!(
        unknown_action_message("nonexistent_op"),
        "Unknown action type: nonexistent_op"
    );
}

#[test]
fn operation_dispatch_runs_the_resolved_transformation() {
    let op = ProcessorFactory::create("explode").unwrap();
    assert!(matches!(op, Operation::Explode(_)));
    let mut entities = vec![ent("A", Geometry::Insert)];
    let params = ParamBag::new();
    let r = op.process("plan.dxf", &params, &mut entities);
    assert_eq!(entities[0].layer, "BLOCKS_TO_EXPLODE");
    assert_eq!(r.status, "success");
}

#[test]
fn unrecognized_parameter_keys_are_ignored() {
    let mut entities = vec![ent("A", Geometry::Other)];
    let mut params = ParamBag::new();
    params.put("bogus_key".to_string(), "bogus".to_string());
    params.put("target_layer".to_string(), "T".to_string());
    let r = LayerMerger.process("plan.dxf", &params, &mut entities);
    assert_eq!(entities[0].layer, "T");
    assert_eq!(count_detail(&r, "modified_entities"), 1);
}
