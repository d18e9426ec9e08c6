use ocfl_crawler_rust::{inventory_file_name, is_object_root, FileProbe, MarkerProbe, ObjectProbe};

fn object_dir(v1_0: FileProbe, v1_1: FileProbe, inventory: bool) -> ObjectProbe {
    ObjectProbe {
        markers: MarkerProbe { is_dir: true, v1_0, v1_1 },
        inventory,
    }
}

fn object_text(s: &str) -> FileProbe {
    FileProbe::Text(s.to_string())
}

#[test]
fn is_object_root_detects_markers() {
    // inventory.json present, no marker yet => false
    assert!(
        !is_object_root(&object_dir(FileProbe::Missing, FileProbe::Missing, true)),
        "directory without OCFL marker should not be a object root"
    );

    // Add 1.0 marker => true
    assert!(
        is_object_root(&object_dir(object_text("ocfl_object_1.0\n"), FileProbe::Missing, true)),
        "directory with 0=ocfl_object_1.0 should be a object root"
    );

    // Add 1.1 marker => false
    assert!(
        !is_object_root(&object_dir(
            object_text("ocfl_object_1.0\n"),
            object_text("ocfl_object_1.1\n"),
            true
        )),
        "directory with 0=ocfl_object_1.0 and 0=ocfl_object_1.1 should not be a object root"
    );

    // Remove 1.0 marker so there is only the 1.1 marker => true
    assert!(
        is_object_root(&object_dir(FileProbe::Missing, object_text("ocfl_object_1.1\n"), true)),
        "directory with 0=ocfl_object_1.1 should be a object root"
    );

    // Negative: not a directory
    let not_dir = ObjectProbe {
        markers: MarkerProbe {
            is_dir: false,
            v1_0: FileProbe::Missing,
            v1_1: FileProbe::Missing,
        },
        inventory: false,
    };
    assert!(
        !is_object_root(&not_dir),
        "non-directory path must not be a object root"
    );
}

#[test]
fn is_object_root_requires_inventory_json() {
    // Object marker but no inventory.json -> false
    assert!(
        !is_object_root(&object_dir(FileProbe::Missing, object_text("ocfl_object_1.1\n"), false)),
        "object root must contain inventory.json"
    );

    // Add inventory.json -> true
    assert!(
        is_object_root(&object_dir(FileProbe::Missing, object_text("ocfl_object_1.1\n"), true)),
        "object root with marker and inventory.json should be detected"
    );
}

#[test]
fn object_root_rejects_wrong_marker_text() {
    assert!(!is_object_root(&object_dir(object_text("ocfl_object_1.1\n"), FileProbe::Missing, true)));
    assert!(!is_object_root(&object_dir(object_text("0=ocfl_object_1.0\n"), FileProbe::Missing, true)));
    assert!(!is_object_root(&object_dir(FileProbe::Unreadable, FileProbe::Missing, true)));
}

#[test]
fn removing_marker_or_inventory_flips_result() {
    assert!(is_object_root(&object_dir(object_text("ocfl_object_1.0\n"), FileProbe::Missing, true)));
    assert!(!is_object_root(&object_dir(object_text("ocfl_object_1.0\n"), FileProbe::Missing, false)));
    assert!(!is_object_root(&object_dir(FileProbe::Missing, FileProbe::Missing, true)));
}

#[test]
fn inventory_name() {
    assert_eq!(inventory_file_name(), "inventory.json");
}
