use docusaurus::addon::{
    build, clear, deploy, docusaurus_script, serve, start, swizzle, validate_json, write_heading_ids,
    write_translations, AddonError,
};
use docusaurus::js::escape_js_string;

#[test]
fn escape_single_quotes() {
    assert_eq!(escape_js_string("it's"), r"it\'s");
}

#[test]
fn escape_backslash() {
    assert_eq!(escape_js_string(r"C:\path"), r"C:\\path");
}

#[test]
fn escape_newlines() {
    assert_eq!(escape_js_string("line\nbreak"), r"line\nbreak");
}

#[test]
fn script_contains_command_and_paths() {
    let script = docusaurus_script("build", "/my/site", "/tmp/cfg.js", r#"{"dev":true}"#);
    assert!(script.contains("core.build("), "must call build");
    assert!(script.contains("/my/site"), "must embed site_dir");
    assert!(script.contains("/tmp/cfg.js"), "must embed config_path");
    assert!(script.contains(r#"{"dev":true}"#), "must embed cli_options");
}

#[test]
fn script_escapes_paths_with_single_quotes() {
    let script = docusaurus_script("build", "/my's/site", "/tmp/c'fg.js", "{}");
    assert!(
        !script.contains("'/my's/site'"),
        "unescaped quote would break JS string"
    );
    assert!(
        script.contains(r"/my\'s/site"),
        "single quote in path must be escaped"
    );
}

#[test]
fn escape_carriage_return_and_mixed() {
    assert_eq!(escape_js_string("a\r\nb"), r"a\r\nb");
    assert_eq!(escape_js_string(r"\'"), r"\\\'");
    assert_eq!(escape_js_string(""), "");
    assert_eq!(escape_js_string("plain/path"), "plain/path");
    assert_eq!(escape_js_string("é'ü"), r"é\'ü");
}

#[test]
fn escape_keeps_other_quotes() {
    assert_eq!(escape_js_string("say \"hi\" `x`"), "say \"hi\" `x`");
}

#[test]
fn script_exact_text() {
    let script = docusaurus_script("serve", "/s", "/c'.js", "{\"port\":3000}");
    let expected = "(function() {\n    const core = require('@docusaurus/core/lib/index.js');\n    if (typeof core.serve !== 'function') {\n        throw new Error('@docusaurus/core does not export serve');\n    }\n    return core.serve('/s', {\n        config: '/c\\'.js',\n        ...({\"port\":3000})\n    });\n})()";
    assert_eq!(script, expected);
}

#[test]
fn validate_json_accepts_object() {
    assert!(validate_json("{}", "cli_options_json").is_ok());
    assert!(validate_json(r#"{"dev":true,"locale":["en"]}"#, "opts").is_ok());
}

#[test]
fn validate_json_refuses_broken_text() {
    match validate_json("{", "cli_options_json") {
        Err(AddonError::InvalidArg(reason)) => {
            assert!(reason.starts_with("cli_options_json is not valid JSON: "));
            assert!(reason.len() > "cli_options_json is not valid JSON: ".len());
        }
        Ok(()) => panic!("broken JSON must be refused"),
    }
    match validate_json("not json", "label") {
        Err(AddonError::InvalidArg(reason)) => assert!(reason.starts_with("label is not valid JSON: ")),
        Ok(()) => panic!("broken JSON must be refused"),
    }
}

#[test]
fn commands_give_their_scripts() {
    let expected = |c: &str| docusaurus_script(c, "/site", "/cfg.js", "{}");
    assert_eq!(build("/site", "/cfg.js", "{}").unwrap(), expected("build"));
    assert_eq!(start("/site", "/cfg.js", "{}").unwrap(), expected("start"));
    assert_eq!(serve("/site", "/cfg.js", "{}").unwrap(), expected("serve"));
    assert_eq!(deploy("/site", "/cfg.js", "{}").unwrap(), expected("deploy"));
    assert_eq!(swizzle("/site", "/cfg.js", "{}").unwrap(), expected("swizzle"));
    assert_eq!(
        write_translations("/site", "/cfg.js", "{}").unwrap(),
        expected("writeTranslations")
    );
    assert_eq!(
        write_heading_ids("/site", "/cfg.js", "{}").unwrap(),
        expected("writeHeadingIds")
    );
}

#[test]
fn commands_refuse_options_that_are_not_json() {
    assert!(matches!(build("/site", "/cfg.js", "{dev:true}"), Err(AddonError::InvalidArg(_))));
    assert!(matches!(start("/site", "/cfg.js", ""), Err(AddonError::InvalidArg(_))));
    match serve("/site", "/cfg.js", "[1,") {
        Err(AddonError::InvalidArg(reason)) => {
            assert!(reason.starts_with("cli_options_json is not valid JSON: "))
        }
        Ok(_) => panic!("must be refused"),
    }
}

#[test]
fn clear_script_exact_text() {
    assert_eq!(
        clear("/my's/site"),
        "(function() {\n    const core = require('@docusaurus/core/lib/index.js');\n    return core.clear('/my\\'s/site', {});\n})()"
    );
}
