use vstd::prelude::*;

use crate::js::{escape_js_string, escaped, lemma_single_quoted_round_trip, single_quoted_value, LiteralKind};
use crate::json::{check_json, json_rejection};

verus! {

/// An argument that the Node addon refuses, with the reason it gives.
#[derive(Debug)]
pub enum AddonError {
    /// An argument is not what the addon accepts.
    InvalidArg(String),
}

/// The JavaScript that runs `@docusaurus/core`'s export `command` on
/// `site_dir`, with `config_path` as the config file and the fields of the
/// JSON object `cli_options_json` spread into the options.
pub open spec fn script_text(
    command: Seq<char>,
    site_dir: Seq<char>,
    config_path: Seq<char>,
    cli_options_json: Seq<char>,
) -> Seq<char> {
    "(function() {\n    const core = require('@docusaurus/core/lib/index.js');\n    if (typeof core."@
        + command + " !== 'function') {\n        throw new Error('@docusaurus/core does not export "@
        + command + "');\n    }\n    return core."@ + command + "('"@
        + escaped(LiteralKind::SingleQuoted, site_dir) + "', {\n        config: '"@
        + escaped(LiteralKind::SingleQuoted, config_path) + "',\n        ...("@
        + cli_options_json + ")\n    });\n})()"@
}

/// The JavaScript that runs `@docusaurus/core`'s `clear` on `site_dir`.
pub open spec fn clear_script_text(site_dir: Seq<char>) -> Seq<char> {
    "(function() {\n    const core = require('@docusaurus/core/lib/index.js');\n    return core.clear('"@
        + escaped(LiteralKind::SingleQuoted, site_dir) + "', {});\n})()"@
}

/// The reason given when the argument named `label` is not JSON, serde_json
/// having reported `detail`.
pub open spec fn not_json_reason(label: Seq<char>, detail: Seq<char>) -> Seq<char> {
    label + " is not valid JSON: "@ + detail
}

/// Builds the JS snippet that calls a named `@docusaurus/core` export and
/// returns its result. `site_dir` and `config_path` are escaped for the
/// single-quoted literals that hold them; `command` and `cli_options_json`
/// go in as they are.
pub fn docusaurus_script(
    command: &str,
    site_dir: &str,
    config_path: &str,
    cli_options_json: &str,
) -> (r: String)
    ensures
        r@ == script_text(command@, site_dir@, config_path@, cli_options_json@),
{
    let site_dir_esc = escape_js_string(site_dir);
    let config_path_esc = escape_js_string(config_path);
    let mut s = String::from_str(
        "(function() {\n    const core = require('@docusaurus/core/lib/index.js');\n    if (typeof core.",
    );
    s.append(command);
    s.append(" !== 'function') {\n        throw new Error('@docusaurus/core does not export ");
    s.append(command);
    s.append("');\n    }\n    return core.");
    s.append(command);
    s.append("('");
    s.append(site_dir_esc.as_str());
    s.append("', {\n        config: '");
    s.append(config_path_esc.as_str());
    s.append("',\n        ...(");
    s.append(cli_options_json);
    s.append(")\n    });\n})()");
    s
}

/// The site directory stands in the script of `docusaurus_script` as the
/// whole body of a single-quoted literal, and that literal's value is the
/// site directory itself, whatever characters it holds.
pub proof fn lemma_script_embeds_site_dir(
    command: Seq<char>,
    site_dir: Seq<char>,
    config_path: Seq<char>,
    cli_options_json: Seq<char>,
)
    ensures
        exists|before: Seq<char>, body: Seq<char>, after: Seq<char>|
            script_text(command, site_dir, config_path, cli_options_json) == before + seq!['\'']
                + body + seq!['\''] + after && single_quoted_value(body) == Some(site_dir),
{
    reveal_strlit("('");
    reveal_strlit("', {\n        config: '");
    let body = escaped(LiteralKind::SingleQuoted, site_dir);
    let before = "(function() {\n    const core = require('@docusaurus/core/lib/index.js');\n    if (typeof core."@
        + command + " !== 'function') {\n        throw new Error('@docusaurus/core does not export "@
        + command + "');\n    }\n    return core."@ + command + seq!['('];
    let after = "', {\n        config: '"@.drop_first() + escaped(LiteralKind::SingleQuoted, config_path)
        + "',\n        ...("@ + cli_options_json + ")\n    });\n})()"@;
    assert("('"@ =~= seq!['('] + seq!['\'']);
    assert("', {\n        config: '"@ =~= seq!['\''] + "', {\n        config: '"@.drop_first());
    assert(script_text(command, site_dir, config_path, cli_options_json) =~= before + seq!['\'']
        + body + seq!['\''] + after);
    lemma_single_quoted_round_trip(site_dir);
}

/// The config path stands in the script of `docusaurus_script` as the whole
/// body of the single-quoted literal after `config: `, and that literal's
/// value is the config path itself, whatever characters it holds.
pub proof fn lemma_script_embeds_config_path(
    command: Seq<char>,
    site_dir: Seq<char>,
    config_path: Seq<char>,
    cli_options_json: Seq<char>,
)
    ensures
        exists|before: Seq<char>, body: Seq<char>|
            script_text(command, site_dir, config_path, cli_options_json) == before
                + "config: '"@ + body + "',\n        ...("@ + cli_options_json
                + ")\n    });\n})()"@ && single_quoted_value(body) == Some(config_path),
{
    reveal_strlit("', {\n        config: '");
    reveal_strlit("config: '");
    let body = escaped(LiteralKind::SingleQuoted, config_path);
    let head = "', {\n        config: '"@;
    let lead = head.subrange(0, head.len() - 9);
    assert(head =~= lead + "config: '"@);
    let before = "(function() {\n    const core = require('@docusaurus/core/lib/index.js');\n    if (typeof core."@
        + command + " !== 'function') {\n        throw new Error('@docusaurus/core does not export "@
        + command + "');\n    }\n    return core."@ + command + "('"@ + escaped(
        LiteralKind::SingleQuoted,
        site_dir,
    ) + lead;
    assert(script_text(command, site_dir, config_path, cli_options_json) =~= before
        + "config: '"@ + body + "',\n        ...("@ + cli_options_json + ")\n    });\n})()"@);
    lemma_single_quoted_round_trip(config_path);
}

/// Checks that `s` is JSON; `label` names the argument in the refusal.
pub fn validate_json(s: &str, label: &str) -> (r: Result<(), AddonError>)
    ensures
        match r {
            Ok(()) => json_rejection(s@) is None,
            Err(AddonError::InvalidArg(reason)) => json_rejection(s@) matches Some(detail)
                && reason@ == not_json_reason(label@, detail),
        },
{
    match check_json(s) {
        Ok(()) => Ok(()),
        Err(detail) => {
            let mut reason = String::from_str(label);
            reason.append(" is not valid JSON: ");
            reason.append(detail.as_str());
            Err(AddonError::InvalidArg(reason))
        },
    }
}

/// What every addon command that takes JSON options returns: the script for
/// `command` when `cli_options_json` is JSON, the refusal otherwise.
pub open spec fn command_outcome(
    r: Result<String, AddonError>,
    command: Seq<char>,
    site_dir: Seq<char>,
    config_path: Seq<char>,
    cli_options_json: Seq<char>,
) -> bool {
    match r {
        Ok(script) => json_rejection(cli_options_json) is None && script@ == script_text(
            command,
            site_dir,
            config_path,
            cli_options_json,
        ),
        Err(AddonError::InvalidArg(reason)) => json_rejection(cli_options_json) matches Some(
            detail,
        ) && reason@ == not_json_reason("cli_options_json"@, detail),
    }
}

fn command_script(command: &str, site_dir: &str, config_path: &str, cli_options_json: &str) -> (r:
    Result<String, AddonError>)
    ensures
        command_outcome(r, command@, site_dir@, config_path@, cli_options_json@),
{
    validate_json(cli_options_json, "cli_options_json")?;
    Ok(docusaurus_script(command, site_dir, config_path, cli_options_json))
}

/// The script that builds the site, once the options are checked to be JSON.
pub fn build(site_dir: &str, config_path: &str, cli_options_json: &str) -> (r: Result<String, AddonError>)
    ensures
        command_outcome(r, "build"@, site_dir@, config_path@, cli_options_json@),
{
    command_script("build", site_dir, config_path, cli_options_json)
}

/// The script that starts the dev server, once the options are checked to be JSON.
pub fn start(site_dir: &str, config_path: &str, cli_options_json: &str) -> (r: Result<String, AddonError>)
    ensures
        command_outcome(r, "start"@, site_dir@, config_path@, cli_options_json@),
{
    command_script("start", site_dir, config_path, cli_options_json)
}

/// The script that serves a built site, once the options are checked to be JSON.
pub fn serve(site_dir: &str, config_path: &str, cli_options_json: &str) -> (r: Result<String, AddonError>)
    ensures
        command_outcome(r, "serve"@, site_dir@, config_path@, cli_options_json@),
{
    command_script("serve", site_dir, config_path, cli_options_json)
}

/// The script that deploys the site, once the options are checked to be JSON.
pub fn deploy(site_dir: &str, config_path: &str, cli_options_json: &str) -> (r: Result<String, AddonError>)
    ensures
        command_outcome(r, "deploy"@, site_dir@, config_path@, cli_options_json@),
{
    command_script("deploy", site_dir, config_path, cli_options_json)
}

/// The script that clears the build cache of `site_dir`.
pub fn clear(site_dir: &str) -> (r: String)
    ensures
        r@ == clear_script_text(site_dir@),
{
    let site_dir_esc = escape_js_string(site_dir);
    let mut s = String::from_str(
        "(function() {\n    const core = require('@docusaurus/core/lib/index.js');\n    return core.clear('",
    );
    s.append(site_dir_esc.as_str());
    s.append("', {});\n})()");
    s
}

/// The script that swizzles a theme component, once the options are checked to be JSON.
pub fn swizzle(site_dir: &str, config_path: &str, cli_options_json: &str) -> (r: Result<String, AddonError>)
    ensures
        command_outcome(r, "swizzle"@, site_dir@, config_path@, cli_options_json@),
{
    command_script("swizzle", site_dir, config_path, cli_options_json)
}

/// The script that writes the i18n translation files, once the options are checked to be JSON.
pub fn write_translations(site_dir: &str, config_path: &str, cli_options_json: &str) -> (r: Result<
    String,
    AddonError,
>)
    ensures
        command_outcome(r, "writeTranslations"@, site_dir@, config_path@, cli_options_json@),
{
    command_script("writeTranslations", site_dir, config_path, cli_options_json)
}

/// The script that writes heading ids into Markdown files, once the options are checked to be JSON.
pub fn write_heading_ids(site_dir: &str, config_path: &str, cli_options_json: &str) -> (r: Result<
    String,
    AddonError,
>)
    ensures
        command_outcome(r, "writeHeadingIds"@, site_dir@, config_path@, cli_options_json@),
{
    command_script("writeHeadingIds", site_dir, config_path, cli_options_json)
}

} // verus!
