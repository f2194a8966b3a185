use docusaurus::config::{DocusaurusConfig, ReportingSeverity};

#[test]
fn default_values_match_upstream() {
    let cfg = DocusaurusConfig::default();
    assert!(!cfg.no_index);
    assert_eq!(cfg.on_broken_links, ReportingSeverity::Throw);
    assert_eq!(cfg.on_broken_anchors, ReportingSeverity::Warn);
    assert_eq!(cfg.on_broken_markdown_links, Some(ReportingSeverity::Warn));
    assert_eq!(cfg.on_duplicate_routes, ReportingSeverity::Warn);
    assert!(cfg.base_url_issue_banner);
    assert_eq!(cfg.static_directories, vec!["static"]);
    assert_eq!(cfg.title_delimiter, Some("|".to_string()));
}

#[test]
fn default_leaves_everything_else_unset() {
    let cfg = DocusaurusConfig::default();
    assert_eq!(cfg.title, "");
    assert_eq!(cfg.url, "");
    assert_eq!(cfg.base_url, "");
    assert!(cfg.tag_line.is_none());
    assert!(cfg.favicon.is_none());
    assert!(cfg.plugins.is_empty());
    assert!(cfg.presets.is_empty());
    assert!(cfg.themes.is_empty());
    assert!(cfg.i18n.is_none());
    assert!(cfg.future.is_none());
    assert!(cfg.scripts.is_empty());
    assert!(cfg.stylesheets.is_empty());
    assert!(cfg.head_tags.is_empty());
    assert!(cfg.client_modules.is_empty());
    assert!(cfg.markdown.is_none());
    assert!(cfg.custom_fields.is_none());
}
