use docusaurus::error::DocusaurusError;
use docusaurus::runner::{command_status, runner_script};

#[test]
fn runner_script_exact_text() {
    assert_eq!(
        runner_script("/a/addon.node", "build", "/site", "/tmp/c.js", "{\"dev\":true}"),
        "require('/a/addon.node').build('/site', '/tmp/c.js', {\"dev\":true});"
    );
}

#[test]
fn command_status_outcomes() {
    assert!(command_status(true, Some(0)).is_ok());
    assert!(matches!(command_status(false, Some(2)), Err(DocusaurusError::CommandFailed(2))));
    assert!(matches!(command_status(false, None), Err(DocusaurusError::CommandFailed(-1))));
}

#[test]
fn runner_script_escapes_paths() {
    assert_eq!(
        runner_script("/a's/addon.node", "build", "/my's/site", "C:\\tmp\\c.js", "{}"),
        "require('/a\\'s/addon.node').build('/my\\'s/site', 'C:\\\\tmp\\\\c.js', {});"
    );
}
