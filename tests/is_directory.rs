use ocfl_crawler_rust::is_directory;

#[test]
fn is_directory_test() {
    assert!(is_directory("src"), "expected an existing directory to be a directory");
    assert!(is_directory("."), "expected the working directory to be a directory");
    assert!(!is_directory("Cargo.toml"), "expected a file to not be a directory");
    assert!(
        !is_directory("no_such_directory_here"),
        "expected a missing path to not be a directory"
    );
}
