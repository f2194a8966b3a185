use vstd::prelude::*;

verus! {

/// How Docusaurus reacts to a problem it finds while building.
#[derive(Debug, Clone, Copy, PartialEq, Eq, Structural)]
pub enum ReportingSeverity {
    Ignore,
    Log,
    Warn,
    Throw,
}

/// Plugin/preset config: either a bare name or a [name, options] pair.
#[derive(Debug, PartialEq)]
pub enum PluginConfig {
    Named(String),
    WithOptions(String, serde_json::Value),
}

/// A preset is written the way a plugin is.
pub type PresetConfig = PluginConfig;

#[derive(Debug, PartialEq)]
pub struct I18nConfig {
    pub locale: String,
    pub locales: Vec<String>,
    pub default_locale: Option<String>,
    pub locales_dir: Option<String>,
    pub path: Option<String>,
}

#[derive(Debug, PartialEq)]
pub struct FutureConfig {
    pub experimental_faster: Option<serde_json::Value>,
}

#[derive(Debug, PartialEq)]
pub struct HtmlTagObject {
    pub tag_name: String,
    pub attributes: Option<serde_json::Value>,
    pub inner_html: Option<String>,
    pub append_to_head: Option<bool>,
}

/// A script given with its attributes; `extra` holds the attributes besides `src`.
#[derive(Debug, PartialEq)]
pub struct ScriptAttrs {
    pub src: String,
    pub extra: serde_json::Value,
}

#[derive(Debug, PartialEq)]
pub enum ScriptEntry {
    Src(String),
    Attrs(ScriptAttrs),
}

/// A stylesheet given with its attributes; `extra` holds the attributes besides `href`.
#[derive(Debug, PartialEq)]
pub struct StylesheetAttrs {
    pub href: String,
    pub extra: serde_json::Value,
}

#[derive(Debug, PartialEq)]
pub enum StylesheetEntry {
    Href(String),
    Attrs(StylesheetAttrs),
}

#[derive(Debug, PartialEq)]
pub struct MarkdownConfig {
    pub mermaid: Option<bool>,
    pub format: Option<String>,
}

/// Full Docusaurus site configuration — mirrors @docusaurus/types `DocusaurusConfig`.
#[derive(Debug, PartialEq)]
pub struct DocusaurusConfig {
    pub title: String,
    pub url: String,
    pub base_url: String,
    pub tag_line: Option<String>,
    pub favicon: Option<String>,
    pub no_index: bool,
    pub on_broken_links: ReportingSeverity,
    pub on_broken_anchors: ReportingSeverity,
    pub on_broken_markdown_links: Option<ReportingSeverity>,
    pub on_duplicate_routes: ReportingSeverity,
    pub base_url_issue_banner: bool,
    pub plugins: Vec<PluginConfig>,
    pub presets: Vec<PresetConfig>,
    pub themes: Vec<PluginConfig>,
    pub static_directories: Vec<String>,
    pub title_delimiter: Option<String>,
    pub i18n: Option<I18nConfig>,
    pub future: Option<FutureConfig>,
    pub scripts: Vec<ScriptEntry>,
    pub stylesheets: Vec<StylesheetEntry>,
    pub head_tags: Vec<HtmlTagObject>,
    pub client_modules: Vec<String>,
    pub markdown: Option<MarkdownConfig>,
    pub custom_fields: Option<serde_json::Value>,
}

/// The configuration that Docusaurus assumes for every field a site leaves
/// out (`@docusaurus/types`): no title, URL or base URL yet; broken links
/// throw; broken anchors, Markdown links and duplicate routes warn; the site
/// is indexed and shows the base URL banner; `static` is the one static
/// directory; titles are delimited by `|`; nothing else is set.
pub open spec fn is_upstream_default(c: DocusaurusConfig) -> bool {
    &&& c.title@ == Seq::<char>::empty()
    &&& c.url@ == Seq::<char>::empty()
    &&& c.base_url@ == Seq::<char>::empty()
    &&& c.tag_line is None
    &&& c.favicon is None
    &&& !c.no_index
    &&& c.on_broken_links == ReportingSeverity::Throw
    &&& c.on_broken_anchors == ReportingSeverity::Warn
    &&& c.on_broken_markdown_links == Some(ReportingSeverity::Warn)
    &&& c.on_duplicate_routes == ReportingSeverity::Warn
    &&& c.base_url_issue_banner
    &&& c.plugins@.len() == 0
    &&& c.presets@.len() == 0
    &&& c.themes@.len() == 0
    &&& c.static_directories@.len() == 1
    &&& c.static_directories@[0]@ == "static"@
    &&& c.title_delimiter matches Some(d) && d@ == "|"@
    &&& c.i18n is None
    &&& c.future is None
    &&& c.scripts@.len() == 0
    &&& c.stylesheets@.len() == 0
    &&& c.head_tags@.len() == 0
    &&& c.client_modules@.len() == 0
    &&& c.markdown is None
    &&& c.custom_fields is None
}

impl Default for DocusaurusConfig {
    fn default() -> (r: Self)
        ensures
            is_upstream_default(r),
    {
        Self {
            title: String::new(),
            url: String::new(),
            base_url: String::new(),
            tag_line: None,
            favicon: None,
            no_index: false,
            on_broken_links: ReportingSeverity::Throw,
            on_broken_anchors: ReportingSeverity::Warn,
            on_broken_markdown_links: Some(ReportingSeverity::Warn),
            on_duplicate_routes: ReportingSeverity::Warn,
            base_url_issue_banner: true,
            plugins: Vec::new(),
            presets: Vec::new(),
            themes: Vec::new(),
            static_directories: vec![String::from_str("static")],
            title_delimiter: Some(String::from_str("|")),
            i18n: None,
            future: None,
            scripts: Vec::new(),
            stylesheets: Vec::new(),
            head_tags: Vec::new(),
            client_modules: Vec::new(),
            markdown: None,
            custom_fields: None,
        }
    }
}

} // verus!
