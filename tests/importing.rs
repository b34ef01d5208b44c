use proc_gen::importer::{candidate_paths, enter_structure, leave_structure, normalized_structure_relpath, MAX_DEPTH};
use proc_gen::structure::StructureError;

#[test]
fn relpath_splits_on_both_separators() {
    assert_eq!(normalized_structure_relpath("Castle/castle_with_doors"), "Castle/castle_with_doors.arch");
    assert_eq!(normalized_structure_relpath("a\\b//c/"), "a/b/c.arch");
    assert_eq!(normalized_structure_relpath("/lone"), "lone.arch");
    assert_eq!(normalized_structure_relpath(""), "");
    assert_eq!(normalized_structure_relpath("//\\"), "");
}

#[test]
fn self_reference_is_a_cycle() {
    let mut stack: Vec<String> = Vec::new();
    assert!(enter_structure(&mut stack, &"a".to_string()).is_ok());
    assert!(enter_structure(&mut stack, &"b".to_string()).is_ok());
    match enter_structure(&mut stack, &"a".to_string()) {
        Err(StructureError::CycleDetected(name)) => assert_eq!(name, "a"),
        _ => panic!("expected CycleDetected"),
    }
    assert_eq!(stack.len(), 2);
    leave_structure(&mut stack);
    assert_eq!(stack, vec!["a".to_string()]);
    leave_structure(&mut stack);
    leave_structure(&mut stack);
    assert!(stack.is_empty());
}

#[test]
fn depth_limit_stops_descent() {
    let mut stack: Vec<String> = Vec::new();
    for i in 0..MAX_DEPTH {
        assert!(enter_structure(&mut stack, &format!("s{}", i)).is_ok());
    }
    assert!(matches!(enter_structure(&mut stack, &"deeper".to_string()), Err(StructureError::MaxDepthExceeded(_))));
    assert_eq!(stack.len(), MAX_DEPTH);
}

#[test]
fn candidates_follow_root_order() {
    assert_eq!(
        candidate_paths("Castle\\gate"),
        vec![
            "assets/structures/Castle/gate.arch".to_string(),
            "tests/assets/structures/Castle/gate.arch".to_string(),
            "tests/imported_assets/Default/structures/Castle/gate.arch".to_string(),
        ]
    );
}
