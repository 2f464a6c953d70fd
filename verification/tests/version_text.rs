use crunchy_cli_core::version::version;

#[test]
fn version_without_commit_is_the_package_version() {
    assert_eq!(version("3.2.5", "", "2024-01-28"), "3.2.5");
}

#[test]
fn version_with_commit_names_commit_and_date() {
    assert_eq!(version("3.2.5", "0a26083", "2024-01-28"), "3.2.5 (0a26083 2024-01-28)");
}

#[test]
fn version_with_commit_and_empty_date_keeps_the_space() {
    assert_eq!(version("1.0.0", "abc", ""), "1.0.0 (abc )");
}
