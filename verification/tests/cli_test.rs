use docusaurus::cli::{plan_command, CliCommand, CommandPlan, OptionValue};

fn keys(plan: &CommandPlan) -> Vec<&str> {
    plan.cli_options.iter().map(|o| o.key.as_str()).collect()
}

#[test]
fn build_options_turn_negative_flags_positive() {
    let plan = plan_command(CliCommand::Build {
        site_dir: ".".to_string(),
        out_dir: None,
        locale: vec![],
        dev: true,
        bundle_analyzer: false,
        no_minify: true,
    });
    assert_eq!(plan.command, "build");
    assert_eq!(plan.site_dir, ".");
    assert_eq!(keys(&plan), vec!["outDir", "locale", "dev", "bundleAnalyzer", "minify"]);
    assert!(matches!(plan.cli_options[0].value, OptionValue::Null));
    assert!(matches!(plan.cli_options[1].value, OptionValue::Null));
    assert!(matches!(plan.cli_options[2].value, OptionValue::Bool(true)));
    assert!(matches!(plan.cli_options[3].value, OptionValue::Bool(false)));
    assert!(matches!(plan.cli_options[4].value, OptionValue::Bool(false)));
}

#[test]
fn build_locales_are_listed() {
    let plan = plan_command(CliCommand::Build {
        site_dir: "site".to_string(),
        out_dir: Some("out".to_string()),
        locale: vec!["en".to_string(), "fr".to_string()],
        dev: false,
        bundle_analyzer: true,
        no_minify: false,
    });
    match &plan.cli_options[0].value {
        OptionValue::Text(s) => assert_eq!(s, "out"),
        _ => panic!("outDir must be text"),
    }
    match &plan.cli_options[1].value {
        OptionValue::TextList(l) => assert_eq!(l, &vec!["en".to_string(), "fr".to_string()]),
        _ => panic!("locale must be a list"),
    }
    assert!(matches!(plan.cli_options[4].value, OptionValue::Bool(true)));
}

#[test]
fn start_and_serve_options() {
    let plan = plan_command(CliCommand::Start {
        site_dir: ".".to_string(),
        port: Some(3000),
        host: None,
        hot_only: true,
        no_open: true,
    });
    assert_eq!(plan.command, "start");
    assert_eq!(keys(&plan), vec!["port", "host", "hotOnly", "open"]);
    assert!(matches!(plan.cli_options[0].value, OptionValue::Port(3000)));
    assert!(matches!(plan.cli_options[3].value, OptionValue::Bool(false)));

    let plan = plan_command(CliCommand::Serve {
        site_dir: ".".to_string(),
        port: None,
        host: Some("0.0.0.0".to_string()),
        dir: Some("build".to_string()),
        build: true,
        no_open: false,
    });
    assert_eq!(plan.command, "serve");
    assert_eq!(keys(&plan), vec!["port", "host", "dir", "build", "open"]);
    assert!(matches!(plan.cli_options[4].value, OptionValue::Bool(true)));
}

#[test]
fn other_commands() {
    let plan = plan_command(CliCommand::Deploy { site_dir: "d".to_string() });
    assert_eq!(plan.command, "deploy");
    assert!(plan.cli_options.is_empty());
    let plan = plan_command(CliCommand::Clear { site_dir: "d".to_string() });
    assert_eq!(plan.command, "clear");
    assert!(plan.cli_options.is_empty());
    let plan = plan_command(CliCommand::Swizzle {
        site_dir: "d".to_string(),
        theme: Some("@docusaurus/theme-classic".to_string()),
        component: None,
        eject: true,
        wrap: false,
        danger: false,
        list: false,
        typescript: true,
    });
    assert_eq!(
        keys(&plan),
        vec!["theme", "component", "eject", "wrap", "danger", "list", "typescript"]
    );
    let plan = plan_command(CliCommand::WriteTranslations {
        site_dir: "d".to_string(),
        locale: Some("fr".to_string()),
    });
    assert_eq!(plan.command, "writeTranslations");
    assert_eq!(keys(&plan), vec!["locale"]);
    let plan = plan_command(CliCommand::WriteHeadingIds {
        site_dir: "d".to_string(),
        content_paths: vec!["docs/a.md".to_string()],
        maintain_case: true,
        overwrite: false,
    });
    assert_eq!(plan.command, "writeHeadingIds");
    assert_eq!(keys(&plan), vec!["contentPaths", "maintainCase", "overwrite"]);
}
