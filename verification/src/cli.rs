use vstd::prelude::*;

verus! {

/// The value of one command-line option handed to Docusaurus, in the JSON
/// shapes the options take: `null`, a boolean, a string, a port number or a
/// list of strings.
pub enum OptionValue {
    Null,
    Bool(bool),
    Text(String),
    Port(u16),
    TextList(Vec<String>),
}

pub enum OptionValueView {
    Null,
    Bool(bool),
    Text(Seq<char>),
    Port(u16),
    TextList(Seq<Seq<char>>),
}

impl View for OptionValue {
    type V = OptionValueView;

    open spec fn view(&self) -> OptionValueView {
        match self {
            OptionValue::Null => OptionValueView::Null,
            OptionValue::Bool(b) => OptionValueView::Bool(*b),
            OptionValue::Text(s) => OptionValueView::Text(s@),
            OptionValue::Port(p) => OptionValueView::Port(*p),
            OptionValue::TextList(l) => OptionValueView::TextList(l@.map_values(|s: String| s@)),
        }
    }
}

/// One field of the options object: its key and its value.
pub struct CliOption {
    pub key: String,
    pub value: OptionValue,
}

/// A subcommand of the command line, with its arguments; paths are given as text.
pub enum CliCommand {
    Build {
        site_dir: String,
        out_dir: Option<String>,
        locale: Vec<String>,
        dev: bool,
        bundle_analyzer: bool,
        no_minify: bool,
    },
    Start { site_dir: String, port: Option<u16>, host: Option<String>, hot_only: bool, no_open: bool },
    Serve {
        site_dir: String,
        port: Option<u16>,
        host: Option<String>,
        dir: Option<String>,
        build: bool,
        no_open: bool,
    },
    Deploy { site_dir: String },
    Clear { site_dir: String },
    Swizzle {
        site_dir: String,
        theme: Option<String>,
        component: Option<String>,
        eject: bool,
        wrap: bool,
        danger: bool,
        list: bool,
        typescript: bool,
    },
    WriteTranslations { site_dir: String, locale: Option<String> },
    WriteHeadingIds {
        site_dir: String,
        content_paths: Vec<String>,
        maintain_case: bool,
        overwrite: bool,
    },
}

/// What a subcommand runs: the name of the `@docusaurus/core` export, the
/// site directory and the options object's fields, in order.
pub struct CommandPlan {
    pub command: String,
    pub site_dir: String,
    pub cli_options: Vec<CliOption>,
}

/// An optional text as an option value: the text, or `null`.
pub open spec fn text_or_null(o: Option<String>) -> OptionValueView {
    match o {
        Some(s) => OptionValueView::Text(s@),
        None => OptionValueView::Null,
    }
}

/// An optional port as an option value: the port, or `null`.
pub open spec fn port_or_null(o: Option<u16>) -> OptionValueView {
    match o {
        Some(p) => OptionValueView::Port(p),
        None => OptionValueView::Null,
    }
}

/// A list of texts as an option value.
pub open spec fn text_list(l: Vec<String>) -> OptionValueView {
    OptionValueView::TextList(l@.map_values(|s: String| s@))
}

/// The `@docusaurus/core` export that a subcommand runs.
pub open spec fn planned_command(cmd: CliCommand) -> Seq<char> {
    match cmd {
        CliCommand::Build { .. } => "build"@,
        CliCommand::Start { .. } => "start"@,
        CliCommand::Serve { .. } => "serve"@,
        CliCommand::Deploy { .. } => "deploy"@,
        CliCommand::Clear { .. } => "clear"@,
        CliCommand::Swizzle { .. } => "swizzle"@,
        CliCommand::WriteTranslations { .. } => "writeTranslations"@,
        CliCommand::WriteHeadingIds { .. } => "writeHeadingIds"@,
    }
}

/// The site directory of a subcommand.
pub open spec fn planned_site_dir(cmd: CliCommand) -> Seq<char> {
    match cmd {
        CliCommand::Build { site_dir, .. } => site_dir@,
        CliCommand::Start { site_dir, .. } => site_dir@,
        CliCommand::Serve { site_dir, .. } => site_dir@,
        CliCommand::Deploy { site_dir } => site_dir@,
        CliCommand::Clear { site_dir } => site_dir@,
        CliCommand::Swizzle { site_dir, .. } => site_dir@,
        CliCommand::WriteTranslations { site_dir, .. } => site_dir@,
        CliCommand::WriteHeadingIds { site_dir, .. } => site_dir@,
    }
}

/// The fields of the options object of a subcommand. Flags that the command
/// line gives in the negative (`--no-minify`, `--no-open`) become positive
/// options (`minify`, `open`); an empty `--locale` list becomes `null`.
pub open spec fn planned_options(cmd: CliCommand) -> Seq<(Seq<char>, OptionValueView)> {
    match cmd {
        CliCommand::Build { out_dir, locale, dev, bundle_analyzer, no_minify, .. } => seq![
            ("outDir"@, text_or_null(out_dir)),
            ("locale"@, if locale@.len() == 0 { OptionValueView::Null } else { text_list(locale) }),
            ("dev"@, OptionValueView::Bool(dev)),
            ("bundleAnalyzer"@, OptionValueView::Bool(bundle_analyzer)),
            ("minify"@, OptionValueView::Bool(!no_minify)),
        ],
        CliCommand::Start { port, host, hot_only, no_open, .. } => seq![
            ("port"@, port_or_null(port)),
            ("host"@, text_or_null(host)),
            ("hotOnly"@, OptionValueView::Bool(hot_only)),
            ("open"@, OptionValueView::Bool(!no_open)),
        ],
        CliCommand::Serve { port, host, dir, build, no_open, .. } => seq![
            ("port"@, port_or_null(port)),
            ("host"@, text_or_null(host)),
            ("dir"@, text_or_null(dir)),
            ("build"@, OptionValueView::Bool(build)),
            ("open"@, OptionValueView::Bool(!no_open)),
        ],
        CliCommand::Deploy { .. } => Seq::empty(),
        CliCommand::Clear { .. } => Seq::empty(),
        CliCommand::Swizzle { theme, component, eject, wrap, danger, list, typescript, .. } => seq![
            ("theme"@, text_or_null(theme)),
            ("component"@, text_or_null(component)),
            ("eject"@, OptionValueView::Bool(eject)),
            ("wrap"@, OptionValueView::Bool(wrap)),
            ("danger"@, OptionValueView::Bool(danger)),
            ("list"@, OptionValueView::Bool(list)),
            ("typescript"@, OptionValueView::Bool(typescript)),
        ],
        CliCommand::WriteTranslations { locale, .. } => seq![("locale"@, text_or_null(locale))],
        CliCommand::WriteHeadingIds { content_paths, maintain_case, overwrite, .. } => seq![
            ("contentPaths"@, text_list(content_paths)),
            ("maintainCase"@, OptionValueView::Bool(maintain_case)),
            ("overwrite"@, OptionValueView::Bool(overwrite)),
        ],
    }
}

/// The fields of `options`, as key and value views.
pub open spec fn options_view(options: Seq<CliOption>) -> Seq<(Seq<char>, OptionValueView)> {
    options.map_values(|o: CliOption| (o.key@, o.value@))
}

fn text_value(o: Option<String>) -> (r: OptionValue)
    ensures
        r@ == text_or_null(o),
{
    match o {
        Some(s) => OptionValue::Text(s),
        None => OptionValue::Null,
    }
}

fn port_value(o: Option<u16>) -> (r: OptionValue)
    ensures
        r@ == port_or_null(o),
{
    match o {
        Some(p) => OptionValue::Port(p),
        None => OptionValue::Null,
    }
}

fn push_option(options: &mut Vec<CliOption>, key: &str, value: OptionValue)
    ensures
        options_view(final(options)@) == options_view(old(options)@).push((key@, value@)),
{
    let ghost before = options@;
    options.push(CliOption { key: String::from_str(key), value });
    proof {
        assert(options_view(options@) =~= options_view(before).push((key@, value@)));
    }
}

/// What the subcommand `cmd` runs: which `@docusaurus/core` export, on which
/// site directory, and with which options.
pub fn plan_command(cmd: CliCommand) -> (r: CommandPlan)
    ensures
        r.command@ == planned_command(cmd),
        r.site_dir@ == planned_site_dir(cmd),
        options_view(r.cli_options@) == planned_options(cmd),
{
    let mut options: Vec<CliOption> = Vec::new();
    proof {
        assert(options_view(options@) =~= Seq::empty());
    }
    match cmd {
        CliCommand::Build { site_dir, out_dir, locale, dev, bundle_analyzer, no_minify } => {
            push_option(&mut options, "outDir", text_value(out_dir));
            let locale_value = if locale.len() == 0 {
                OptionValue::Null
            } else {
                OptionValue::TextList(locale)
            };
            push_option(&mut options, "locale", locale_value);
            push_option(&mut options, "dev", OptionValue::Bool(dev));
            push_option(&mut options, "bundleAnalyzer", OptionValue::Bool(bundle_analyzer));
            push_option(&mut options, "minify", OptionValue::Bool(!no_minify));
            CommandPlan { command: String::from_str("build"), site_dir, cli_options: options }
        },
        CliCommand::Start { site_dir, port, host, hot_only, no_open } => {
            push_option(&mut options, "port", port_value(port));
            push_option(&mut options, "host", text_value(host));
            push_option(&mut options, "hotOnly", OptionValue::Bool(hot_only));
            push_option(&mut options, "open", OptionValue::Bool(!no_open));
            CommandPlan { command: String::from_str("start"), site_dir, cli_options: options }
        },
        CliCommand::Serve { site_dir, port, host, dir, build, no_open } => {
            push_option(&mut options, "port", port_value(port));
            push_option(&mut options, "host", text_value(host));
            push_option(&mut options, "dir", text_value(dir));
            push_option(&mut options, "build", OptionValue::Bool(build));
            push_option(&mut options, "open", OptionValue::Bool(!no_open));
            CommandPlan { command: String::from_str("serve"), site_dir, cli_options: options }
        },
        CliCommand::Deploy { site_dir } => {
            CommandPlan { command: String::from_str("deploy"), site_dir, cli_options: options }
        },
        CliCommand::Clear { site_dir } => {
            CommandPlan { command: String::from_str("clear"), site_dir, cli_options: options }
        },
        CliCommand::Swizzle { site_dir, theme, component, eject, wrap, danger, list, typescript } => {
            push_option(&mut options, "theme", text_value(theme));
            push_option(&mut options, "component", text_value(component));
            push_option(&mut options, "eject", OptionValue::Bool(eject));
            push_option(&mut options, "wrap", OptionValue::Bool(wrap));
            push_option(&mut options, "danger", OptionValue::Bool(danger));
            push_option(&mut options, "list", OptionValue::Bool(list));
            push_option(&mut options, "typescript", OptionValue::Bool(typescript));
            CommandPlan { command: String::from_str("swizzle"), site_dir, cli_options: options }
        },
        CliCommand::WriteTranslations { site_dir, locale } => {
            push_option(&mut options, "locale", text_value(locale));
            CommandPlan {
                command: String::from_str("writeTranslations"),
                site_dir,
                cli_options: options,
            }
        },
        CliCommand::WriteHeadingIds { site_dir, content_paths, maintain_case, overwrite } => {
            push_option(&mut options, "contentPaths", OptionValue::TextList(content_paths));
            push_option(&mut options, "maintainCase", OptionValue::Bool(maintain_case));
            push_option(&mut options, "overwrite", OptionValue::Bool(overwrite));
            CommandPlan {
                command: String::from_str("writeHeadingIds"),
                site_dir,
                cli_options: options,
            }
        },
    }
}

/// The value under `key` in the options `opts`, if one of them has that key.
pub open spec fn option_named(opts: Seq<(Seq<char>, OptionValueView)>, key: Seq<char>) -> Option<
    OptionValueView,
>
    decreases opts.len(),
{
    if opts.len() == 0 {
        None
    } else if opts[0].0 == key {
        Some(opts[0].1)
    } else {
        option_named(opts.drop_first(), key)
    }
}

/// Every flag reaches Docusaurus as given, except the two given in the
/// negative on the command line: `--no-minify` becomes `minify` and
/// `--no-open` becomes `open`, each the opposite of its flag.
pub proof fn lemma_flags_reach_options(cmd: CliCommand)
    ensures
        match cmd {
            CliCommand::Build { dev, bundle_analyzer, no_minify, .. } => {
                &&& option_named(planned_options(cmd), "dev"@) == Some(OptionValueView::Bool(dev))
                &&& option_named(planned_options(cmd), "bundleAnalyzer"@) == Some(
                    OptionValueView::Bool(bundle_analyzer),
                )
                &&& option_named(planned_options(cmd), "minify"@) == Some(
                    OptionValueView::Bool(!no_minify),
                )
            },
            CliCommand::Start { hot_only, no_open, .. } => {
                &&& option_named(planned_options(cmd), "hotOnly"@) == Some(
                    OptionValueView::Bool(hot_only),
                )
                &&& option_named(planned_options(cmd), "open"@) == Some(
                    OptionValueView::Bool(!no_open),
                )
            },
            CliCommand::Serve { build, no_open, .. } => {
                &&& option_named(planned_options(cmd), "build"@) == Some(OptionValueView::Bool(build))
                &&& option_named(planned_options(cmd), "open"@) == Some(
                    OptionValueView::Bool(!no_open),
                )
            },
            CliCommand::Swizzle { eject, wrap, danger, list, typescript, .. } => {
                &&& option_named(planned_options(cmd), "eject"@) == Some(OptionValueView::Bool(eject))
                &&& option_named(planned_options(cmd), "wrap"@) == Some(OptionValueView::Bool(wrap))
                &&& option_named(planned_options(cmd), "danger"@) == Some(
                    OptionValueView::Bool(danger),
                )
                &&& option_named(planned_options(cmd), "list"@) == Some(OptionValueView::Bool(list))
                &&& option_named(planned_options(cmd), "typescript"@) == Some(
                    OptionValueView::Bool(typescript),
                )
            },
            CliCommand::WriteHeadingIds { maintain_case, overwrite, .. } => {
                &&& option_named(planned_options(cmd), "maintainCase"@) == Some(
                    OptionValueView::Bool(maintain_case),
                )
                &&& option_named(planned_options(cmd), "overwrite"@) == Some(
                    OptionValueView::Bool(overwrite),
                )
            },
            _ => true,
        },
{
    reveal_strlit("outDir");
    reveal_strlit("locale");
    reveal_strlit("dev");
    reveal_strlit("bundleAnalyzer");
    reveal_strlit("minify");
    reveal_strlit("port");
    reveal_strlit("host");
    reveal_strlit("hotOnly");
    reveal_strlit("open");
    reveal_strlit("dir");
    reveal_strlit("build");
    reveal_strlit("theme");
    reveal_strlit("component");
    reveal_strlit("eject");
    reveal_strlit("wrap");
    reveal_strlit("danger");
    reveal_strlit("list");
    reveal_strlit("typescript");
    reveal_strlit("contentPaths");
    reveal_strlit("maintainCase");
    reveal_strlit("overwrite");
    reveal_with_fuel(option_named, 8);
    assert("outDir"@.len() == 6 && "outDir"@[0] == 'o');
    assert("locale"@.len() == 6 && "locale"@[0] == 'l');
    assert("dev"@.len() == 3 && "dev"@[0] == 'd');
    assert("bundleAnalyzer"@.len() == 14 && "bundleAnalyzer"@[0] == 'b');
    assert("minify"@.len() == 6 && "minify"@[0] == 'm');
    assert("port"@.len() == 4 && "port"@[0] == 'p');
    assert("host"@.len() == 4 && "host"@[0] == 'h');
    assert("hotOnly"@.len() == 7 && "hotOnly"@[0] == 'h');
    assert("open"@.len() == 4 && "open"@[0] == 'o');
    assert("dir"@.len() == 3 && "dir"@[0] == 'd');
    assert("build"@.len() == 5 && "build"@[0] == 'b');
    assert("theme"@.len() == 5 && "theme"@[0] == 't');
    assert("component"@.len() == 9 && "component"@[0] == 'c');
    assert("eject"@.len() == 5 && "eject"@[0] == 'e');
    assert("wrap"@.len() == 4 && "wrap"@[0] == 'w');
    assert("danger"@.len() == 6 && "danger"@[0] == 'd');
    assert("list"@.len() == 4 && "list"@[0] == 'l');
    assert("typescript"@.len() == 10 && "typescript"@[0] == 't');
    assert("contentPaths"@.len() == 12 && "contentPaths"@[0] == 'c');
    assert("maintainCase"@.len() == 12 && "maintainCase"@[0] == 'm');
    assert("overwrite"@.len() == 9 && "overwrite"@[0] == 'o');
}

} // verus!
