use find_semantic_release_config::find_semantic_release_configuration;

fn make_dir(tmp: &tempfile::TempDir, name: &str) -> String {
    let dir = tmp.path().join(name);
    fs_err::create_dir_all(&dir).unwrap();
    dir.to_str().unwrap().to_string()
}

fn write_file(dir: &str, name: &str, contents: &str) {
    fs_err::write(format!("{dir}/{name}"), contents).unwrap();
}

#[test]
fn test_find_releaserc_no_extension() {
    let tmp = tempfile::tempdir().unwrap();
    let dir = make_dir(&tmp, "releaserc_no_extension");
    write_file(&dir, ".releaserc", "{}\n");
    let result = find_semantic_release_configuration(&dir).unwrap();
    assert_eq!(result, Some(format!("{dir}/.releaserc")));
}

#[test]
fn test_find_releaserc_yaml() {
    let tmp = tempfile::tempdir().unwrap();
    let dir = make_dir(&tmp, "releaserc_yaml");
    write_file(&dir, ".releaserc.yaml", "branches: [main]\n");
    let result = find_semantic_release_configuration(&dir).unwrap();
    assert_eq!(result, Some(format!("{dir}/.releaserc.yaml")));
}

#[test]
fn test_find_releaserc_yml() {
    let tmp = tempfile::tempdir().unwrap();
    let dir = make_dir(&tmp, "releaserc_yml");
    write_file(&dir, ".releaserc.yml", "branches: [main]\n");
    let result = find_semantic_release_configuration(&dir).unwrap();
    assert_eq!(result, Some(format!("{dir}/.releaserc.yml")));
}

#[test]
fn test_find_releaserc_json() {
    let tmp = tempfile::tempdir().unwrap();
    let dir = make_dir(&tmp, "releaserc_json");
    write_file(&dir, ".releaserc.json", "{}\n");
    let result = find_semantic_release_configuration(&dir).unwrap();
    assert_eq!(result, Some(format!("{dir}/.releaserc.json")));
}

#[test]
fn test_find_releaserc_js() {
    let tmp = tempfile::tempdir().unwrap();
    let dir = make_dir(&tmp, "releaserc_js");
    write_file(&dir, ".releaserc.js", "module.exports = {};\n");
    let result = find_semantic_release_configuration(&dir).unwrap();
    assert_eq!(result, Some(format!("{dir}/.releaserc.js")));
}

#[test]
fn test_find_releaserc_cjs() {
    let tmp = tempfile::tempdir().unwrap();
    let dir = make_dir(&tmp, "releaserc_cjs");
    write_file(&dir, ".releaserc.cjs", "module.exports = {};\n");
    let result = find_semantic_release_configuration(&dir).unwrap();
    assert_eq!(result, Some(format!("{dir}/.releaserc.cjs")));
}

#[test]
fn test_find_release_config_js() {
    let tmp = tempfile::tempdir().unwrap();
    let dir = make_dir(&tmp, "release_config_js");
    write_file(&dir, "release.config.js", "module.exports = {};\n");
    let result = find_semantic_release_configuration(&dir).unwrap();
    assert_eq!(result, Some(format!("{dir}/release.config.js")));
}

#[test]
fn test_find_release_config_cjs() {
    let tmp = tempfile::tempdir().unwrap();
    let dir = make_dir(&tmp, "release_config_cjs");
    write_file(&dir, "release.config.cjs", "module.exports = {};\n");
    let result = find_semantic_release_configuration(&dir).unwrap();
    assert_eq!(result, Some(format!("{dir}/release.config.cjs")));
}

#[test]
fn test_package_json_with_release() {
    let tmp = tempfile::tempdir().unwrap();
    let dir = make_dir(&tmp, "package_json_with_release");
    write_file(&dir, "package.json", "{\"name\": \"a\", \"release\": {}}\n");
    let result = find_semantic_release_configuration(&dir).unwrap();
    assert_eq!(result, Some(format!("{dir}/package.json")));
}

#[test]
fn test_package_json_without_release() {
    let tmp = tempfile::tempdir().unwrap();
    let dir = make_dir(&tmp, "package_json_without_release");
    write_file(&dir, "package.json", "{\"name\": \"a\"}\n");
    let result = find_semantic_release_configuration(&dir).unwrap();
    assert_eq!(result, None);
}

#[test]
fn test_no_config() {
    let tmp = tempfile::tempdir().unwrap();
    let dir = make_dir(&tmp, "no_config");
    let result = find_semantic_release_configuration(&dir).unwrap();
    assert_eq!(result, None);
}

#[test]
fn test_package_json_invalid() {
    let tmp = tempfile::tempdir().unwrap();
    let dir = make_dir(&tmp, "package_json_invalid");
    write_file(&dir, "package.json", "this is not a manifest\n");
    let result = find_semantic_release_configuration(&dir);
    assert!(result.is_err());
}

#[test]
fn test_precedence_releaserc_over_others() {
    let tmp = tempfile::tempdir().unwrap();
    let dir = make_dir(&tmp, "precedence_releaserc");
    write_file(&dir, ".releaserc", "{}\n");
    write_file(&dir, "release.config.js", "module.exports = {};\n");
    write_file(&dir, "package.json", "{\"release\": {}}\n");
    let result = find_semantic_release_configuration(&dir).unwrap();
    assert_eq!(result, Some(format!("{dir}/.releaserc")));
}

#[test]
fn test_precedence_config_over_package() {
    let tmp = tempfile::tempdir().unwrap();
    let dir = make_dir(&tmp, "precedence_config");
    write_file(&dir, "release.config.js", "module.exports = {};\n");
    write_file(&dir, "package.json", "{\"release\": {}}\n");
    let result = find_semantic_release_configuration(&dir).unwrap();
    assert_eq!(result, Some(format!("{dir}/release.config.js")));
}
