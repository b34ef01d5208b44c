use proc_gen::importer::StructureCache;
use proc_gen::ownership::{ObjectType, Ownership};
use proc_gen::structure::{Params, Structure, StructureError, StructureKey, StructureReference};
use proc_gen::tags::Tags;
use bevy_prng::WyRand;
use rand::SeedableRng;

fn object(path: &str, ownership: Ownership) -> StructureKey {
    StructureKey::Object {
        path: path.to_string(),
        ownership,
        selectable: false,
        object_type: ObjectType::Other,
        visibility: None,
        settings: Params(0),
    }
}

fn leaf_structure(name: &str, n: usize) -> Structure {
    let mut data = Vec::new();
    for i in 0..n {
        data.push((object(&format!("obj{}", i), Ownership::Inherit), Params(i as u64)));
    }
    Structure { structure_name: name.to_string(), tags: vec!["leaf".to_string()], data }
}

fn object_ownership(k: &StructureKey) -> Ownership {
    match k {
        StructureKey::Object { ownership, .. } => *ownership,
        _ => panic!("not an object"),
    }
}

fn reference_ownership(r: &StructureReference) -> Ownership {
    match r {
        StructureReference::Raw { ownership, .. } => *ownership,
        StructureReference::Ref { ownership, .. } => *ownership,
    }
}

#[test]
fn team_is_handed_down_to_inherit_entries() {
    let inner = leaf_structure("inner", 2);
    let kept = leaf_structure("kept", 1);
    let outer = Structure {
        structure_name: "outer".to_string(),
        tags: vec![],
        data: vec![
            (object("a", Ownership::Inherit), Params(1)),
            (object("b", Ownership::Team(4)), Params(2)),
            (StructureKey::Nest(StructureReference::Raw { structure: Box::new(inner), ownership: Ownership::Inherit }), Params(3)),
            (StructureKey::Nest(StructureReference::Raw { structure: Box::new(kept), ownership: Ownership::Team(9) }), Params(4)),
            (StructureKey::Choose { list: StructureReference::Ref { structure: "named".to_string(), ownership: Ownership::Inherit } }, Params(5)),
        ],
    };
    let cache = StructureCache::new();
    let reference = StructureReference::Raw { structure: Box::new(outer), ownership: Ownership::Team(2) };
    let resolved = Structure::try_from(&reference, &cache).unwrap();
    assert_eq!(object_ownership(&resolved.data[0].0), Ownership::Team(2));
    assert_eq!(object_ownership(&resolved.data[1].0), Ownership::Team(4));
    match &resolved.data[2].0 {
        StructureKey::Nest(StructureReference::Raw { structure, ownership }) => {
            assert_eq!(*ownership, Ownership::Team(2));
            assert_eq!(object_ownership(&structure.data[0].0), Ownership::Team(2));
            assert_eq!(object_ownership(&structure.data[1].0), Ownership::Team(2));
        }
        _ => panic!("expected an embedded nest"),
    }
    match &resolved.data[3].0 {
        StructureKey::Nest(StructureReference::Raw { structure, ownership }) => {
            assert_eq!(*ownership, Ownership::Team(9));
            assert_eq!(object_ownership(&structure.data[0].0), Ownership::Inherit);
        }
        _ => panic!("expected an embedded nest"),
    }
    match &resolved.data[4].0 {
        StructureKey::Choose { list } => assert_eq!(reference_ownership(list), Ownership::Team(2)),
        _ => panic!("expected a choose"),
    }
    assert_eq!(resolved.data[2].1, Params(3));
}

#[test]
fn inherit_at_top_level_is_refused() {
    let cache = StructureCache::new();
    let raw = StructureReference::Raw { structure: Box::new(leaf_structure("s", 1)), ownership: Ownership::Inherit };
    match Structure::try_from(&raw, &cache) {
        Err(StructureError::InheritOwnershipAtTopLevel(name)) => assert_eq!(name, "s"),
        _ => panic!("expected InheritOwnershipAtTopLevel"),
    }
    let named = StructureReference::Ref { structure: "missing".to_string(), ownership: Ownership::Inherit };
    assert!(matches!(Structure::try_from(&named, &cache), Err(StructureError::InheritOwnershipAtTopLevel(_))));
}

#[test]
fn named_reference_needs_an_import() {
    let mut cache = StructureCache::new();
    let named = StructureReference::Ref { structure: "tree".to_string(), ownership: Ownership::Team(1) };
    match Structure::try_from(&named, &cache) {
        Err(StructureError::ImportFailed(name)) => assert_eq!(name, "tree"),
        _ => panic!("expected ImportFailed"),
    }
    cache.insert("tree".to_string(), leaf_structure("tree", 3));
    let s = Structure::try_from(&named, &cache).unwrap();
    assert_eq!(s.data.len(), 3);
    assert_eq!(object_ownership(&s.data[2].0), Ownership::Team(1));
    assert!(cache.contains(&"tree".to_string()));
    cache.clear();
    assert!(!cache.contains(&"tree".to_string()));
}

#[test]
fn cache_insert_replaces() {
    let mut cache = StructureCache::new();
    cache.insert("a".to_string(), leaf_structure("first", 1));
    cache.insert("a".to_string(), leaf_structure("second", 2));
    let got = cache.get(&"a".to_string()).unwrap();
    assert_eq!(got.structure_name, "second");
    assert_eq!(got.data.len(), 2);
    assert!(cache.get(&"b".to_string()).is_none());
}

#[test]
fn choose_all_when_count_reaches_population() {
    let s = leaf_structure("pop", 4);
    let mut rng = WyRand::seed_from_u64(7);
    let sub = s.create_random_substructure(&4, &mut rng);
    assert_eq!(sub.data.len(), 4);
    for i in 0..4 {
        assert_eq!(sub.data[i].1, Params(i as u64));
    }
    let sub = s.create_random_substructure(&10, &mut rng);
    assert_eq!(sub.data.len(), 4);
    assert_eq!(sub.structure_name, "pop");
    assert_eq!(sub.tags, vec!["leaf".to_string()]);
}

#[test]
fn choose_some_draws_distinct_entries() {
    let s = leaf_structure("pop", 10);
    let mut rng = WyRand::seed_from_u64(132);
    for round in 0..20 {
        let sub = s.create_random_substructure(&3, &mut rng);
        assert_eq!(sub.data.len(), 3, "round {}", round);
        let mut seen: Vec<u64> = sub.data.iter().map(|e| e.1 .0).collect();
        assert!(seen.iter().all(|p| *p < 10));
        seen.sort();
        seen.dedup();
        assert_eq!(seen.len(), 3);
    }
    let one = s.create_random_substructure(&1, &mut rng);
    assert_eq!(one.data.len(), 1);
}

#[test]
fn substructure_from_indices_keeps_order() {
    let s = leaf_structure("pop", 5);
    let sub = s.substructure_from_indices(&vec![4, 0, 2]);
    let picked: Vec<u64> = sub.data.iter().map(|e| e.1 .0).collect();
    assert_eq!(picked, vec![4, 0, 2]);
}

#[test]
fn labels_of_operators() {
    let r = |n: &str| StructureReference::Ref { structure: n.to_string(), ownership: Ownership::Inherit };
    assert_eq!(object("models/tree.glb", Ownership::Inherit).variant_name(), "models/tree.glb");
    assert_eq!(StructureKey::Nest(r("house")).variant_name(), "house");
    assert_eq!(StructureKey::ProbabilitySpawn { reference: r("rock"), settings: Params(0) }.variant_name(), "Prob \"rock\"");
    assert_eq!(StructureKey::ChooseSome { list: r("x"), count: 2 }.variant_name(), "Some \"x\"");
    assert_eq!(StructureKey::DistanceFog(Params(0)).variant_name(), "FogSettings");
    assert_eq!(
        StructureKey::PathToTag { reference: r("road"), tag: "Town".to_string(), count: 3, store_as: None, settings: Params(0) }.variant_name(),
        "PathToTag Town -> \"road\""
    );
    assert_eq!(StructureKey::InPass { index: 12, reference: r("late") }.variant_name(), "Pass12 \"late\"");
    assert_eq!(StructureKey::InPass { index: 200, reference: r("q\"") }.variant_name(), "Pass200 \"q\\\"\"");
}

#[test]
fn tags_of_referenced_structures() {
    let mut cache = StructureCache::new();
    let nest_named = StructureKey::Nest(StructureReference::Ref { structure: "t".to_string(), ownership: Ownership::Team(0) });
    assert_eq!(nest_named.get_tags(&cache), Some(vec!["Error".to_string()]));
    cache.insert("t".to_string(), leaf_structure("t", 1));
    assert_eq!(nest_named.get_tags(&cache), Some(vec!["leaf".to_string()]));
    let untagged = Structure { structure_name: "u".to_string(), tags: vec![], data: vec![] };
    let nest_raw = StructureKey::Nest(StructureReference::Raw { structure: Box::new(untagged), ownership: Ownership::Team(0) });
    assert_eq!(nest_raw.get_tags(&cache), None);
    assert_eq!(StructureKey::PointLight(Params(1)).get_tags(&cache), None);
}

#[test]
fn tags_queries() {
    let t = Tags(vec!["Town".to_string(), "Wall".to_string()]);
    assert!(t.contains("Wall"));
    assert!(!t.contains("wall"));
    assert_eq!(t.len(), 2);
    assert!(t.any_of(&vec!["Gate".to_string(), "Town".to_string()]));
    assert!(!t.any_of(&vec!["Gate".to_string()]));
}

#[test]
fn labels_from_a_given_quoted_name() {
    let r = StructureReference::Ref { structure: "wall".to_string(), ownership: Ownership::Team(0) };
    let key = StructureKey::Loop { reference: r, count: 3, settings: Params(0) };
    assert_eq!(key.label_with("<wall>"), "Loop <wall>");
    assert!(key.labelled_reference().is_some());
    assert!(StructureKey::SpotLight(Params(0)).labelled_reference().is_none());
    assert_eq!(StructureKey::SpotLight(Params(0)).label_with("ignored"), "SpotLight");
    let pass = StructureKey::InPass { index: 7, reference: StructureReference::Ref { structure: "z".to_string(), ownership: Ownership::Inherit } };
    assert_eq!(pass.label_with("Q"), "Pass7 Q");
}
