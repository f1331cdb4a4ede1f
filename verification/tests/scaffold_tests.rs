use shtml_dev::ProjectNameError;
use shtml_dev::entry_point_template;
use shtml_dev::gitignore_template;
use shtml_dev::package_manifest;
use shtml_dev::validate_project_name;

#[test]
fn name_validation_accepts_plain_names_and_dot() {
    assert!(validate_project_name("MySite").is_ok());
    assert!(validate_project_name(".").is_ok());
}

#[test]
fn name_validation_rejects_empty_and_paths() {
    assert_eq!(validate_project_name(""), Err(ProjectNameError::Empty));
    assert_eq!(validate_project_name(".."), Err(ProjectNameError::PathLike));
    assert_eq!(validate_project_name("a/b"), Err(ProjectNameError::PathLike));
    assert_eq!(validate_project_name("a\\b"), Err(ProjectNameError::PathLike));
    assert_eq!(validate_project_name("x/.."), Err(ProjectNameError::PathLike));
}

#[test]
fn name_error_messages() {
    assert_eq!(ProjectNameError::Empty.message(), "Project name cannot be empty");
    assert_eq!(
        ProjectNameError::PathLike.message(),
        "Project name must be a single directory name (no path separators, no '..')"
    );
}

#[test]
fn manifest_interpolates_the_project_name() {
    let m = package_manifest("MySite");
    assert!(m.starts_with("// swift-tools-version: 5.9"));
    assert!(m.contains("name: \"MySite\""));
    assert!(m.contains(".executable(name: \"MySite\", targets: [\"MySite\"])"));
    assert!(m.contains(".executableTarget(name: \"MySite\", dependencies: [\"SHTML\"])"));
    assert_eq!(m.matches("MySite").count(), 4);
}

#[test]
fn templates_are_complete() {
    let entry = entry_point_template();
    assert!(entry.starts_with("import SHTML"));
    assert!(entry.contains("site.generate()"));
    let ignore = gitignore_template();
    assert!(ignore.contains("/.build"));
    assert!(ignore.contains("output/index.html"));
}
