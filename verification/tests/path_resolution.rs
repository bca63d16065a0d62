use tempfile::TempDir;

use fcopy::args::Args;
use fcopy::error::CopyError;
use fcopy::path_ops::{
    base_name, ends_with_separator, ensure_valid_paths, join_path, per_source_target, PathFacts,
};

fn args_for(source: Vec<String>, destination: String, force: bool) -> Args {
    Args {
        source,
        destination,
        force,
        hard_link: false,
        symlink: false,
        verify: false,
        no_progress: false,
        no_keep_awake: true,
        keep_display_awake: false,
    }
}

fn path_string(path: &std::path::Path) -> String {
    path.to_str().unwrap().to_string()
}

#[test]
fn test_ensure_valid_paths_valid() {
    // Setup a valid directory structure using TempDir
    let temp_dir = TempDir::new().unwrap();
    let temp_file = temp_dir.path().join("test.txt");
    fs_extra::file::write_all(&temp_file, "").unwrap();

    // The source file and the destination directory both exist
    let args = args_for(
        vec![path_string(&temp_file)],
        path_string(temp_dir.path()),
        false,
    );
    let facts = PathFacts {
        source_exists: vec![temp_file.exists()],
        destination_exists: temp_dir.path().exists(),
        has_parent: true,
        parent_exists: true,
    };

    let result = ensure_valid_paths(&args, &facts);
    println!("Result: {:?}", result);
    assert!(result.is_ok());
}

#[test]
fn test_ensure_valid_paths_nonexistent_source() {
    let args = args_for(
        vec!["/non/existent/file.txt".to_string()],
        "/tmp".to_string(),
        true,
    );
    let facts = PathFacts {
        source_exists: vec![std::path::Path::new("/non/existent/file.txt").exists()],
        destination_exists: std::path::Path::new("/tmp").exists(),
        has_parent: true,
        parent_exists: true,
    };

    let result = ensure_valid_paths(&args, &facts);
    println!("Result: {:?}", result);
    assert!(result.is_err());
}

#[test]
fn test_ensure_valid_paths_create_destination() {
    // Create a temporary directory for the source file
    let temp_dir = TempDir::new().unwrap();

    // Create a temporary source file
    let temp_file = temp_dir.path().join("source_file.txt");
    fs_extra::file::write_all(&temp_file, "dummy content").unwrap();

    // A destination directory that does not exist yet, spelled with a
    // trailing separator
    let destination_dir = temp_dir.path().join("fresh_destination");
    let destination = path_string(&destination_dir) + "/";

    let args = args_for(vec![path_string(&temp_file)], destination.clone(), true);

    // Ensure that the destination directory doesn't exist before the test
    assert!(
        !destination_dir.exists(),
        "Destination directory should not exist before test."
    );
    let facts = PathFacts {
        source_exists: vec![temp_file.exists()],
        destination_exists: destination_dir.exists(),
        has_parent: true,
        parent_exists: temp_dir.path().exists(),
    };

    // Run the function and check the result
    let result = ensure_valid_paths(&args, &facts);
    println!("Result: {:?}", result);

    // Ensure the result is Ok and the plan creates the destination directory
    assert!(result.is_ok());
    let plan = result.unwrap();
    assert!(plan.create_destination_dir);
    assert!(!plan.canonicalize_destination);

    // Carrying the plan out creates the directory
    fs_extra::dir::create_all(&destination, false).unwrap();
    assert!(
        destination_dir.exists(),
        "Destination directory should be created at {}.",
        destination_dir.display()
    );
}

#[test]
fn test_multi_source_missing_destination_without_force() {
    let temp_dir = TempDir::new().unwrap();
    let first = temp_dir.path().join("first.txt");
    let second = temp_dir.path().join("second.txt");
    fs_extra::file::write_all(&first, "one").unwrap();
    fs_extra::file::write_all(&second, "two").unwrap();
    let destination = temp_dir.path().join("missing_dir");

    let args = args_for(
        vec![path_string(&first), path_string(&second)],
        path_string(&destination),
        false,
    );
    let facts = PathFacts {
        source_exists: vec![first.exists(), second.exists()],
        destination_exists: destination.exists(),
        has_parent: true,
        parent_exists: true,
    };

    let result = ensure_valid_paths(&args, &facts);
    match result {
        Err(CopyError::DestinationDirectoryMissing(path)) => {
            assert_eq!(path, path_string(&destination));
        }
        other => panic!("expected a missing destination directory, got {:?}", other),
    }
    assert!(!destination.exists());
}

#[test]
fn test_multi_source_missing_destination_with_force() {
    let args = args_for(
        vec!["a".to_string(), "b".to_string()],
        "dest_dir".to_string(),
        true,
    );
    let facts = PathFacts {
        source_exists: vec![true, true],
        destination_exists: false,
        has_parent: false,
        parent_exists: false,
    };

    let plan = ensure_valid_paths(&args, &facts).unwrap();
    assert!(plan.create_destination_dir);
    assert!(plan.canonicalize_destination);
}

#[test]
fn test_first_missing_source_is_reported() {
    let args = args_for(
        vec!["present".to_string(), "gone".to_string(), "also_gone".to_string()],
        "dest".to_string(),
        false,
    );
    let facts = PathFacts {
        source_exists: vec![true, false, false],
        destination_exists: true,
        has_parent: false,
        parent_exists: false,
    };

    match ensure_valid_paths(&args, &facts) {
        Err(CopyError::SourceNotFound(path)) => assert_eq!(path, "gone"),
        other => panic!("expected a missing source, got {:?}", other),
    }
}

#[test]
fn test_existing_destination_is_canonicalized() {
    let args = args_for(vec!["a".to_string()], "dest".to_string(), false);
    let facts = PathFacts {
        source_exists: vec![true],
        destination_exists: true,
        has_parent: true,
        parent_exists: true,
    };

    let plan = ensure_valid_paths(&args, &facts).unwrap();
    assert!(plan.canonicalize_destination);
    assert!(!plan.create_destination_dir);
    assert!(!plan.create_parent_dirs);
}

#[test]
fn test_missing_parent_is_created_under_force() {
    let args = args_for(vec!["a".to_string()], "deep/nested/dest".to_string(), true);
    let facts = PathFacts {
        source_exists: vec![true],
        destination_exists: false,
        has_parent: true,
        parent_exists: false,
    };

    let plan = ensure_valid_paths(&args, &facts).unwrap();
    assert!(plan.create_parent_dirs);
    assert!(!plan.create_destination_dir);
    assert!(!plan.canonicalize_destination);
}

#[test]
fn test_base_name_and_join() {
    assert_eq!(base_name(&"a/b/c.txt".to_string()), "c.txt");
    assert_eq!(base_name(&"plain.txt".to_string()), "plain.txt");
    assert_eq!(base_name(&"dir/".to_string()), "");
    assert_eq!(join_path(&"a/b".to_string(), &"c.txt".to_string()), "a/b/c.txt");
    assert_eq!(join_path(&"a/b/".to_string(), &"c.txt".to_string()), "a/b/c.txt");
    assert_eq!(join_path(&"".to_string(), &"c.txt".to_string()), "c.txt");
    assert!(ends_with_separator(&"a/b/".to_string()));
    assert!(!ends_with_separator(&"a/b".to_string()));
    assert!(!ends_with_separator(&"".to_string()));
}

#[test]
fn test_per_source_target_appends_file_name() {
    let target = per_source_target(
        &"/dest/dir".to_string(),
        true,
        &"/src/data.bin".to_string(),
        true,
    );
    assert_eq!(target, "/dest/dir/data.bin");

    let unchanged = per_source_target(
        &"/dest/dir".to_string(),
        false,
        &"/src/data.bin".to_string(),
        true,
    );
    assert_eq!(unchanged, "/dest/dir");

    let dir_source = per_source_target(
        &"/dest/dir".to_string(),
        true,
        &"/src/tree".to_string(),
        false,
    );
    assert_eq!(dir_source, "/dest/dir");
}
