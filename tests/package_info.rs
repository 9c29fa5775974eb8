use mocktopus::package_info::PackageInfo;

#[test]
fn dependency_root_is_manifest_directory() {
    let files = vec!["dep/src/lib.rs".to_string()];
    let info = PackageInfo::new("dep 0.1.0", "dep/Cargo.toml", true, files.clone()).unwrap();
    assert_eq!("dep 0.1.0", info.id);
    assert_eq!(Some("dep".to_string()), info.dep_root);
    assert_eq!(None, info.tested_root);
    assert_eq!(files, info.files);
}

#[test]
fn tested_root_is_manifest_directory() {
    let info = PackageInfo::new("app", "/work/app/Cargo.toml", false, vec![]).unwrap();
    assert_eq!(None, info.dep_root);
    assert_eq!(Some("/work/app".to_string()), info.tested_root);
}

#[test]
fn manifest_without_directory_is_refused() {
    assert!(PackageInfo::new("x", "", false, vec![]).is_none());
    assert!(PackageInfo::new("x", "/", true, vec![]).is_none());
}

#[test]
fn bare_manifest_name_has_empty_root() {
    let info = PackageInfo::new("x", "Cargo.toml", true, vec![]).unwrap();
    assert_eq!(Some(String::new()), info.dep_root);
}
