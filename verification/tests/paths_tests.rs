use mrsbot::error::PathError;
use mrsbot::paths::derive_tier_paths;

#[test]
fn derive_relative_three_levels() {
    let tp = derive_tier_paths("cfgs/serverA/profileX.toml").unwrap();
    assert_eq!(tp.server_path, "cfgs/serverA/all.toml");
    assert_eq!(tp.default_path, "cfgs/default.toml");
    assert_eq!(tp.portal_name, "profileX");
}

#[test]
fn derive_absolute_path() {
    let tp = derive_tier_paths("/etc/bots/serverA/p1.toml").unwrap();
    assert_eq!(tp.server_path, "/etc/bots/serverA/all.toml");
    assert_eq!(tp.default_path, "/etc/bots/default.toml");
    assert_eq!(tp.portal_name, "p1");
}

#[test]
fn derive_two_components_puts_default_beside_cwd() {
    let tp = derive_tier_paths("serverA/p.toml").unwrap();
    assert_eq!(tp.server_path, "serverA/all.toml");
    assert_eq!(tp.default_path, "default.toml");
    assert_eq!(tp.portal_name, "p");
}

#[test]
fn derive_directly_under_root() {
    let tp = derive_tier_paths("/srv/p.toml").unwrap();
    assert_eq!(tp.server_path, "/srv/all.toml");
    assert_eq!(tp.default_path, "/default.toml");
    assert_eq!(tp.portal_name, "p");
}

#[test]
fn portal_name_without_extension_is_kept_whole() {
    let tp = derive_tier_paths("cfgs/serverA/profile").unwrap();
    assert_eq!(tp.portal_name, "profile");
}

#[test]
fn portal_name_with_leading_dot_is_kept_whole() {
    let tp = derive_tier_paths("cfgs/serverA/.toml").unwrap();
    assert_eq!(tp.portal_name, ".toml");
}

#[test]
fn portal_name_keeps_inner_dots() {
    let tp = derive_tier_paths("cfgs/serverA/x.tar.gz").unwrap();
    assert_eq!(tp.portal_name, "x.tar");
}

#[test]
fn bare_file_name_has_no_parent() {
    let e = derive_tier_paths("p.toml").unwrap_err();
    assert_eq!(e, PathError::MissingParent);
    assert_eq!(e.message(), "Invalid portal path (no parent directory)");
}

#[test]
fn file_under_root_alone_has_no_grandparent() {
    let e = derive_tier_paths("/p.toml").unwrap_err();
    assert_eq!(e, PathError::MissingGrandparent);
    assert_eq!(
        e.message(),
        "Could not find server directory (parent of portal dir)"
    );
}

#[test]
fn trailing_slash_has_no_base_name() {
    let e = derive_tier_paths("cfgs/serverA/").unwrap_err();
    assert_eq!(e, PathError::MissingBaseName);
    assert_eq!(e.message(), "Could not extract portal name from path");
}

#[test]
fn empty_path_has_no_base_name() {
    let e = derive_tier_paths("").unwrap_err();
    assert_eq!(e, PathError::MissingBaseName);
}

#[test]
fn non_ascii_path_components() {
    let tp = derive_tier_paths("конфиги/серверА/профильX.toml").unwrap();
    assert_eq!(tp.server_path, "конфиги/серверА/all.toml");
    assert_eq!(tp.default_path, "конфиги/default.toml");
    assert_eq!(tp.portal_name, "профильX");
}
