use proc_gen::expand::{
    expansion_requests, object_plan, reflection_composite, reflection_nests, route_request, scene_name_of, Placement, Route,
};
use proc_gen::generation::{
    any_due, generation_overlay_text, in_pass_spawn_listener, process_pending_inpass, CurrentPass, GenerationMachine, GenerationState,
    InPassSpawnEvent, PendingInPass, TickInput,
};
use proc_gen::ownership::{ObjectType, Ownership};
use proc_gen::scatter::{SampleSize, SeededOrNot};
use proc_gen::stabilize::{
    affects_navmesh, choose_replacement_targets, GenerationOnlyColliderPending, NavMeshPriorityThreshold,
    SelectiveReplacementPending,
};
use proc_gen::structure::{Params, Structure, StructureKey, StructureReference, VisibilityMode};
use bevy_prng::WyRand;
use rand::SeedableRng;

fn quiet() -> TickInput {
    TickInput {
        spawned: false,
        generation_only_pending: false,
        selective_pending: false,
        in_pass_due: false,
        navmesh_idle: true,
        resolved_path_spawns: false,
    }
}

fn busy() -> TickInput {
    TickInput { spawned: true, ..quiet() }
}

/// Runs one pass from `Generating` until the machine reaches `Completed`,
/// with spawn output on the first tick only; returns the ticks taken.
fn run_pass(m: &mut GenerationMachine, pending: &mut PendingInPass) -> usize {
    assert_eq!(m.state, GenerationState::Generating);
    let due = process_pending_inpass(pending, m.current_pass);
    let mut ticks = 0;
    m.tick(if due.is_empty() { busy() } else { busy() });
    ticks += 1;
    while m.state != GenerationState::Completed {
        let input = TickInput { in_pass_due: any_due(pending, m.current_pass), ..quiet() };
        m.tick(input);
        ticks += 1;
        assert!(ticks < 1000);
    }
    ticks
}

fn leaf_object() -> Structure {
    Structure {
        structure_name: "leaf".to_string(),
        tags: vec![],
        data: vec![(
            StructureKey::Object {
                path: "rock.glb".to_string(),
                ownership: Ownership::Team(0),
                selectable: false,
                object_type: ObjectType::Cosmetic,
                visibility: None,
                settings: Params(0),
            },
            Params(0),
        )],
    }
}

#[test]
fn noise_spawn_scene_takes_one_pass() {
    let scene = Structure {
        structure_name: "field".to_string(),
        tags: vec![],
        data: vec![(
            StructureKey::NoiseSpawn {
                reference: StructureReference::Raw { structure: Box::new(leaf_object()), ownership: Ownership::Team(0) },
                seed: SeededOrNot::Seeded(3),
                sample_size: SampleSize::UBiDim(10),
                count: 5,
                settings: Params(1),
            },
            Params(0),
        )],
    };
    let mut m = GenerationMachine::new();
    let mut pending = PendingInPass(Vec::new());
    let requests = expansion_requests(&scene, None);
    assert_eq!(requests.len(), 1);
    assert_eq!(route_request(&requests[0].key, m.state), Route::RealizeNow);
    run_pass(&mut m, &mut pending);
    m.tick(quiet());
    assert_eq!(m.state, GenerationState::Completed);
    assert_eq!(m.current_pass, CurrentPass(0));
    for _ in 0..100 {
        m.tick(quiet());
    }
    assert_eq!(m.state, GenerationState::Completed);
    assert!(pending.0.is_empty());
}

#[test]
fn in_pass_entry_adds_a_second_pass() {
    let scene = Structure {
        structure_name: "town".to_string(),
        tags: vec![],
        data: vec![
            (StructureKey::Nest(StructureReference::Raw { structure: Box::new(leaf_object()), ownership: Ownership::Team(0) }), Params(0)),
            (StructureKey::InPass { index: 1, reference: StructureReference::Ref { structure: "late".to_string(), ownership: Ownership::Team(0) } }, Params(1)),
        ],
    };
    let mut m = GenerationMachine::new();
    let mut pending = PendingInPass(Vec::new());
    let mut events = Vec::new();
    for request in expansion_requests(&scene, Some(77)) {
        if let Route::DeferToPass(index) = route_request(&request.key, m.state) {
            if let StructureKey::InPass { reference, .. } = request.key {
                let transform = match request.placement {
                    Placement::ComposedWithParent(p) | Placement::Local(p) => p,
                };
                events.push(InPassSpawnEvent { index, reference, transform, parent: request.parent });
            }
        }
    }
    assert_eq!(events.len(), 1);
    in_pass_spawn_listener(events, &mut m, &mut pending);
    assert!(m.highest_pass.0 >= 1);
    assert_eq!(pending.0.len(), 1);

    run_pass(&mut m, &mut pending);
    assert_eq!(pending.0.len(), 1);
    m.tick(quiet());
    assert_eq!(m.state, GenerationState::Generating);
    assert_eq!(m.current_pass, CurrentPass(1));
    let due = process_pending_inpass(&mut pending, m.current_pass);
    assert_eq!(due.len(), 1);
    assert_eq!(due[0].parent, Some(77));
    assert!(pending.0.is_empty());
    run_pass(&mut m, &mut pending);
    m.tick(quiet());
    assert_eq!(m.state, GenerationState::Completed);
    for _ in 0..100 {
        m.tick(quiet());
    }
    assert_eq!(m.state, GenerationState::Completed);
    assert_eq!(m.current_pass, CurrentPass(1));
}

#[test]
fn generating_waits_for_pending_markers() {
    let mut m = GenerationMachine::new();
    m.tick(busy());
    for _ in 0..200 {
        m.tick(TickInput { selective_pending: true, ..quiet() });
        assert_eq!(m.state, GenerationState::Generating);
        m.tick(TickInput { generation_only_pending: true, ..quiet() });
        assert_eq!(m.state, GenerationState::Generating);
    }
    let mut ticks = 0;
    while m.state == GenerationState::Generating {
        m.tick(quiet());
        ticks += 1;
    }
    assert_eq!(m.state, GenerationState::CollisionResolution);
    assert_eq!(ticks, 10);
}

#[test]
fn generating_needs_activity() {
    let mut m = GenerationMachine::new();
    for _ in 0..300 {
        m.tick(quiet());
    }
    assert_eq!(m.state, GenerationState::Generating);
}

#[test]
fn path_results_send_the_machine_back_to_generating() {
    let mut m = GenerationMachine::new();
    m.tick(busy());
    while m.state != GenerationState::PathResolve {
        m.tick(quiet());
    }
    let mut ticks = 0;
    while m.state == GenerationState::PathResolve {
        m.tick(TickInput { resolved_path_spawns: true, ..quiet() });
        ticks += 1;
    }
    assert_eq!(ticks, 60);
    assert_eq!(m.state, GenerationState::Generating);
    assert_eq!(m.generating_frames.frames_in_generating, 0);
    assert_eq!(m.current_pass, CurrentPass(0));
}

#[test]
fn navmesh_build_holds_the_machine() {
    let mut m = GenerationMachine::new();
    m.tick(busy());
    while m.state != GenerationState::NavMeshBuilding {
        m.tick(quiet());
    }
    for _ in 0..50 {
        m.tick(TickInput { navmesh_idle: false, ..quiet() });
        assert_eq!(m.state, GenerationState::NavMeshBuilding);
    }
    m.tick(quiet());
    assert_eq!(m.state, GenerationState::PathResolve);
}

#[test]
fn path_requests_wait_for_path_resolve() {
    let key = StructureKey::PathToAllTags {
        reference: StructureReference::Ref { structure: "road".to_string(), ownership: Ownership::Team(0) },
        tag: "Gate".to_string(),
        count: 4,
        store_as: None,
        settings: Params(0),
    };
    assert_eq!(route_request(&key, GenerationState::Generating), Route::BufferForPathResolve);
    assert_eq!(route_request(&key, GenerationState::PathResolve), Route::RealizeNow);
    let spawn = StructureKey::PathSpawn {
        reference: StructureReference::Ref { structure: "lamp".to_string(), ownership: Ownership::Team(0) },
        count: 4,
        settings: Params(0),
    };
    assert_eq!(route_request(&spawn, GenerationState::Generating), Route::RealizeNow);
    assert_eq!(route_request(&spawn, GenerationState::PathResolve), Route::HoldForGenerating);
    let nest = StructureKey::Nest(StructureReference::Ref { structure: "x".to_string(), ownership: Ownership::Team(0) });
    assert_eq!(route_request(&nest, GenerationState::PathResolve), Route::HoldForGenerating);
    let rand = StructureKey::Rand { reference: StructureReference::Ref { structure: "x".to_string(), ownership: Ownership::Team(0) }, settings: Params(5) };
    let s = Structure { structure_name: "r".to_string(), tags: vec![], data: vec![(rand, Params(8)), (nest, Params(9))] };
    let requests = expansion_requests(&s, None);
    assert_eq!(requests[0].placement, Placement::Local(Params(8)));
    assert_eq!(requests[1].placement, Placement::ComposedWithParent(Params(9)));
}

#[test]
fn reflection_without_child_mirroring_nests_twice() {
    let reference = StructureReference::Ref { structure: "tower".to_string(), ownership: Ownership::Team(1) };
    let nests = reflection_nests(&reference, Params(1), Params(2), Some(5));
    assert_eq!(nests.len(), 2);
    for n in &nests {
        match &n.key {
            StructureKey::Nest(StructureReference::Ref { structure, .. }) => assert_eq!(structure, "tower"),
            _ => panic!("expected a nest"),
        }
    }
    assert_eq!(nests[0].placement, Placement::ComposedWithParent(Params(1)));
    assert_eq!(nests[1].placement, Placement::ComposedWithParent(Params(2)));
}

#[test]
fn reflection_composite_interleaves_mirrored_copies() {
    let mut s = leaf_object();
    s.data.push((StructureKey::PointLight(Params(3)), Params(4)));
    let composite = reflection_composite(&s, &vec![Params(10), Params(11)]);
    assert_eq!(composite.structure_name, "leaf (+Reflected)");
    assert!(composite.tags.is_empty());
    let transforms: Vec<Params> = composite.data.iter().map(|e| e.1).collect();
    assert_eq!(transforms, vec![Params(0), Params(10), Params(4), Params(11)]);
}

#[test]
fn selective_replacement_waits_for_steady_counts() {
    let mut p = SelectiveReplacementPending {
        replacement_reference: StructureReference::Ref { structure: "ruin".to_string(), ownership: Ownership::Team(0) },
        tags: vec!["House".to_string()],
        replace_count: 2,
        last_descendant_count: 0,
        last_candidate_count: 0,
        stable_frames: 0,
    };
    assert!(!p.observe(0, 0));
    assert!(!p.observe(10, 3));
    assert!(!p.observe(10, 3));
    assert!(!p.observe(10, 3));
    assert!(p.observe(10, 3));
    assert!(!p.observe(11, 3));
    assert_eq!(p.stable_frames, 0);
    let mut rng = WyRand::seed_from_u64(9);
    let chosen = choose_replacement_targets(vec![5, 6, 7], 2, &mut rng);
    assert_eq!(chosen.len(), 2);
    assert!(chosen.iter().all(|c| [5, 6, 7].contains(c)));
    assert_ne!(chosen[0], chosen[1]);
    assert_eq!(choose_replacement_targets(vec![5], 3, &mut rng), vec![5]);
}

#[test]
fn generation_only_colliders_settle_after_three_steady_observations() {
    let mut p = GenerationOnlyColliderPending::new();
    assert!(!p.observe(4, 2));
    assert!(!p.observe(4, 2));
    assert!(!p.observe(4, 2));
    assert!(p.observe(4, 2));
    assert!(!p.observe(5, 2));
}

#[test]
fn navmesh_priority_threshold() {
    let t = NavMeshPriorityThreshold::default();
    assert_eq!(t, NavMeshPriorityThreshold(1));
    assert!(affects_navmesh(None, t));
    assert!(affects_navmesh(Some(1), t));
    assert!(!affects_navmesh(Some(0), t));
}

#[test]
fn objects_are_planned_from_their_settings() {
    let plan = object_plan("models/trees/oak.glb", true, ObjectType::Cosmetic, None, true);
    assert_eq!(plan.name, "oak.glb");
    assert_eq!(plan.visibility, Some(VisibilityMode::Visible));
    assert!(plan.selectable.is_some());
    assert!(plan.queue_navmesh_affector);
    assert!(!plan.pathfinder);
    let unit = object_plan("unit.glb", false, ObjectType::Unit, Some(VisibilityMode::Inherit), true);
    assert_eq!(unit.visibility, None);
    assert!(unit.selectable.is_none());
    assert!(!unit.queue_navmesh_affector);
    assert!(unit.pathfinder);
    let bare = object_plan("a/b/", false, ObjectType::Building, Some(VisibilityMode::Hidden), false);
    assert_eq!(bare.name, "b");
    assert_eq!(bare.visibility, Some(VisibilityMode::Hidden));
    assert!(!bare.queue_navmesh_affector);
    assert_eq!(scene_name_of(""), "Unnamed Scene");
    assert_eq!(scene_name_of("x/.."), "Unnamed Scene");
    assert_eq!(scene_name_of("plain"), "plain");
}

#[test]
fn overlay_counts_passes_from_one() {
    let text = generation_overlay_text(GenerationState::PathResolve, 12, 0, 255);
    assert_eq!(text, "GenerationState: PathResolve\nActiveNavMeshTasks: 12\nPass: 1/256");
}
