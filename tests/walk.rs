use ocfl_crawler_rust::{
    enumerate_object_roots, FileProbe, MarkerProbe, ObjectProbe, WalkStep,
};

fn plain_dir() -> ObjectProbe {
    ObjectProbe {
        markers: MarkerProbe {
            is_dir: true,
            v1_0: FileProbe::Missing,
            v1_1: FileProbe::Missing,
        },
        inventory: false,
    }
}

fn plain_file() -> ObjectProbe {
    ObjectProbe {
        markers: MarkerProbe {
            is_dir: false,
            v1_0: FileProbe::Missing,
            v1_1: FileProbe::Missing,
        },
        inventory: false,
    }
}

fn object_root_dir() -> ObjectProbe {
    ObjectProbe {
        markers: MarkerProbe {
            is_dir: true,
            v1_0: FileProbe::Missing,
            v1_1: FileProbe::Text("ocfl_object_1.1\n".to_string()),
        },
        inventory: true,
    }
}

fn visit(path: &str, probe: ObjectProbe) -> WalkStep {
    WalkStep::Visited(path.to_string(), probe)
}

#[test]
fn three_subdirectories_one_object_root() {
    let walk = vec![
        visit("./0=ocfl_1.1", plain_file()),
        visit("./a", plain_dir()),
        visit("./b", object_root_dir()),
        visit("./b/0=ocfl_object_1.1", plain_file()),
        visit("./b/inventory.json", plain_file()),
        visit("./c", plain_dir()),
    ];
    let found = enumerate_object_roots(&walk);
    assert_eq!(found.roots, vec!["./b".to_string()]);
    assert!(found.errors.is_empty());
}

#[test]
fn no_object_roots_gives_empty() {
    let walk = vec![
        visit("./0=ocfl_1.0", plain_file()),
        visit("./x", plain_dir()),
        visit("./x/y", plain_dir()),
    ];
    let found = enumerate_object_roots(&walk);
    assert!(found.roots.is_empty());
    let empty: Vec<WalkStep> = Vec::new();
    let nothing = enumerate_object_roots(&empty);
    assert!(nothing.roots.is_empty());
    assert!(nothing.errors.is_empty());
}

#[test]
fn nested_object_roots_in_walk_order_and_errors_kept() {
    let walk = vec![
        visit("./a", plain_dir()),
        visit("./a/obj1", object_root_dir()),
        WalkStep::Failed("./a/locked: Permission denied (os error 13)".to_string()),
        visit("./a/b", plain_dir()),
        visit("./a/b/obj2", object_root_dir()),
        WalkStep::Failed("./broken: No such file or directory (os error 2)".to_string()),
    ];
    let found = enumerate_object_roots(&walk);
    assert_eq!(
        found.roots,
        vec!["./a/obj1".to_string(), "./a/b/obj2".to_string()]
    );
    assert_eq!(
        found.errors,
        vec![
            "./a/locked: Permission denied (os error 13)".to_string(),
            "./broken: No such file or directory (os error 2)".to_string()
        ]
    );
}

#[test]
fn enumeration_repeats_over_unchanged_walk() {
    let first = vec![
        visit("./a", plain_dir()),
        visit("./a/obj1", object_root_dir()),
        visit("./z", object_root_dir()),
    ];
    let second = vec![
        visit("./z", object_root_dir()),
        visit("./a", plain_dir()),
        visit("./a/obj1", object_root_dir()),
    ];
    let mut one = enumerate_object_roots(&first).roots;
    let mut two = enumerate_object_roots(&second).roots;
    assert_eq!(one, enumerate_object_roots(&first).roots);
    one.sort();
    two.sort();
    assert_eq!(one, two);
}
