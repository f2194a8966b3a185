use docusaurus::bridge::{addon_platform, find_addon, find_docusaurus_bin, temp_config_source};
use docusaurus::error::DocusaurusError;
use docusaurus::paths::{search_step, SearchStep};

use tempfile::TempDir;

#[test]
fn find_addon_returns_err_when_not_found() {
    let tmp = TempDir::new().unwrap();
    let err = find_addon(tmp.path().to_str().unwrap(), "linux", "x86_64").unwrap_err();
    assert!(
        err.message().contains("docusau-rs addon not found"),
        "unexpected error: {}",
        err.message()
    );
}

#[test]
fn find_addon_refuses_unknown_platform() {
    let tmp = TempDir::new().unwrap();
    let err = find_addon(tmp.path().to_str().unwrap(), "plan9", "mips").unwrap_err();
    assert!(matches!(err, DocusaurusError::AddonNotFound));
}

#[test]
fn addon_platform_names() {
    assert_eq!(addon_platform("macos", "aarch64").as_deref(), Some("darwin-arm64"));
    assert_eq!(addon_platform("macos", "x86_64").as_deref(), Some("darwin-x64"));
    assert_eq!(addon_platform("linux", "x86_64").as_deref(), Some("linux-x64-gnu"));
    assert_eq!(addon_platform("linux", "aarch64").as_deref(), Some("linux-arm64-gnu"));
    assert_eq!(addon_platform("windows", "x86_64").as_deref(), Some("win32-x64-msvc"));
    assert_eq!(addon_platform("windows", "aarch64"), None);
    assert_eq!(addon_platform("freebsd", "x86_64"), None);
}

#[test]
fn find_docusaurus_bin_reports_not_found() {
    let tmp = TempDir::new().unwrap();
    let sub = tmp.path().join("no-such-subdir").join("site");
    let r = find_docusaurus_bin(sub.to_str().unwrap());
    assert!(matches!(r, Err(DocusaurusError::DocusaurusBinNotFound)));
}

#[test]
fn write_temp_config_produces_module_exports() {
    let json = r#"{"title":"Hello","url":"https://example.com","baseUrl":"/"}"#;
    let contents = temp_config_source(json);
    assert!(
        contents.starts_with("module.exports = JSON.parse("),
        "must start with module.exports assignment"
    );
    assert!(contents.contains("Hello"), "must contain config content");
    assert_eq!(contents, format!("module.exports = JSON.parse(`{json}`);\n"));
}

#[test]
fn temp_config_source_escapes_backslash_and_backtick() {
    let tricky = r#"{"a":"x\"y`z"}"#;
    assert_eq!(
        temp_config_source(tricky),
        "module.exports = JSON.parse(`{\"a\":\"x\\\\\"y\\`z\"}`);\n"
    );
}

/// Creates the directory `name` directly inside `parent`.
fn make_dir(parent: &std::path::Path, name: &str) -> TempDir {
    tempfile::Builder::new().prefix(name).rand_bytes(0).tempdir_in(parent).unwrap()
}

/// Creates the empty file `name` directly inside `parent`.
fn make_file(parent: &std::path::Path, name: &str) -> tempfile::NamedTempFile {
    tempfile::Builder::new().prefix(name).rand_bytes(0).tempfile_in(parent).unwrap()
}

#[test]
fn find_addon_locates_node_in_fake_structure() {
    let tmp = TempDir::new().unwrap();

    let node_modules = make_dir(tmp.path(), "node_modules");
    let addon_dir = make_dir(node_modules.path(), "docusau-rs");

    // Place all platform variants so the test is portable
    let mut files = Vec::new();
    for name in &[
        "docusau_rs.darwin-arm64.node",
        "docusau_rs.darwin-x64.node",
        "docusau_rs.linux-x64-gnu.node",
        "docusau_rs.linux-arm64-gnu.node",
        "docusau_rs.win32-x64-msvc.node",
    ] {
        files.push(make_file(addon_dir.path(), name));
    }

    // Start search from a subdirectory to exercise the walk-up logic
    let packages = make_dir(tmp.path(), "packages");
    let subdir = make_dir(packages.path(), "site");

    let addon = find_addon(subdir.path().to_str().unwrap(), "linux", "x86_64")
        .expect("find_addon should locate the .node file");
    let addon = std::path::Path::new(&addon);
    assert!(addon.exists(), "returned addon path must exist");
    assert_eq!(addon.extension().and_then(|e| e.to_str()), Some("node"));
    assert_eq!(addon, addon_dir.path().join("docusau_rs.linux-x64-gnu.node"));
}

#[test]
fn find_docusaurus_bin_walks_up() {
    let tmp = TempDir::new().unwrap();
    let node_modules = make_dir(tmp.path(), "node_modules");
    let bin_dir = make_dir(node_modules.path(), ".bin");
    // An executable file: created with the permissions of /bin/sh.
    let exec_perms = std::path::Path::new("/bin/sh").metadata().unwrap().permissions();
    let _bin = tempfile::Builder::new()
        .prefix("docusaurus")
        .rand_bytes(0)
        .permissions(exec_perms)
        .tempfile_in(bin_dir.path())
        .unwrap();
    let website = make_dir(tmp.path(), "website");
    let site = make_dir(website.path(), "docs");
    let found = find_docusaurus_bin(site.path().to_str().unwrap()).unwrap();
    assert_eq!(std::path::Path::new(&found), bin_dir.path().join("docusaurus"));
}

#[test]
fn find_docusaurus_bin_nearest_wins() {
    let tmp = TempDir::new().unwrap();
    let exec_perms = std::path::Path::new("/bin/sh").metadata().unwrap().permissions();
    let outer_nm = make_dir(tmp.path(), "node_modules");
    let outer_bin = make_dir(outer_nm.path(), ".bin");
    let _outer = tempfile::Builder::new()
        .prefix("docusaurus")
        .rand_bytes(0)
        .permissions(exec_perms.clone())
        .tempfile_in(outer_bin.path())
        .unwrap();
    let site = make_dir(tmp.path(), "site");
    let inner_nm = make_dir(site.path(), "node_modules");
    let inner_bin = make_dir(inner_nm.path(), ".bin");
    let _inner = tempfile::Builder::new()
        .prefix("docusaurus")
        .rand_bytes(0)
        .permissions(exec_perms)
        .tempfile_in(inner_bin.path())
        .unwrap();
    let docs = make_dir(site.path(), "docs");
    let found = find_docusaurus_bin(docs.path().to_str().unwrap()).unwrap();
    assert_eq!(std::path::Path::new(&found), inner_bin.path().join("docusaurus"));
}

#[test]
fn find_docusaurus_bin_skips_files_that_cannot_run() {
    let tmp = TempDir::new().unwrap();
    let node_modules = make_dir(tmp.path(), "node_modules");
    let bin_dir = make_dir(node_modules.path(), ".bin");
    // Created without execute permission, so it does not count.
    let _bin = make_file(bin_dir.path(), "docusaurus");
    let r = find_docusaurus_bin(tmp.path().to_str().unwrap());
    match r {
        Ok(p) => assert_ne!(std::path::Path::new(&p), bin_dir.path().join("docusaurus")),
        Err(e) => assert!(matches!(e, DocusaurusError::DocusaurusBinNotFound)),
    }
}

#[test]
fn search_step_answers() {
    let parts = vec!["node_modules", ".bin", "docusaurus"];
    match search_step("/a/b", &parts, true) {
        SearchStep::Found(p) => assert_eq!(p, "/a/b/node_modules/.bin/docusaurus"),
        _ => panic!("a yes must end the search"),
    }
    match search_step("/a/b", &parts, false) {
        SearchStep::Up(p) => assert_eq!(p, "/a"),
        _ => panic!("a no must go up"),
    }
    assert!(matches!(search_step("/", &parts, false), SearchStep::Fail));
}

#[test]
fn temp_config_source_escapes_dollar_only_before_brace() {
    // `${` would start a substitution, so that `$` is written `\$`.
    assert_eq!(
        temp_config_source("{\"a\":\"${x}\"}"),
        "module.exports = JSON.parse(`{\"a\":\"\\${x}\"}`);\n"
    );
    // Any other `$` stays as it is.
    assert_eq!(
        temp_config_source("{\"title\":\"$5 $\"}"),
        "module.exports = JSON.parse(`{\"title\":\"$5 $\"}`);\n"
    );
    assert_eq!(temp_config_source("$${"), "module.exports = JSON.parse(`$\\${`);\n");
    assert_eq!(temp_config_source("$"), "module.exports = JSON.parse(`$`);\n");
}
