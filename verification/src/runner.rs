use vstd::prelude::*;

use crate::error::{DocusaurusError, DocusaurusErrorView};
use crate::js::{escape_js_string, escaped, lemma_single_quoted_round_trip, single_quoted_value, LiteralKind};

verus! {

/// The inline JavaScript that loads the addon at `addon_path` and calls its
/// export `command` with the site directory, the config path and the options
/// object. The three paths are escaped for the single-quoted literals that
/// hold them; `command` and `cli_options_json` go in as they are.
pub open spec fn runner_script_text(
    addon_path: Seq<char>,
    command: Seq<char>,
    site_dir: Seq<char>,
    config_path: Seq<char>,
    cli_options_json: Seq<char>,
) -> Seq<char> {
    "require('"@ + escaped(LiteralKind::SingleQuoted, addon_path) + "')."@ + command + "('"@
        + escaped(LiteralKind::SingleQuoted, site_dir) + "', '"@ + escaped(
        LiteralKind::SingleQuoted,
        config_path,
    ) + "', "@ + cli_options_json + ");"@
}

/// Inline JS that loads the napi-rs addon and calls the requested command
/// inside one Node.js process.
pub fn runner_script(
    addon_path: &str,
    command: &str,
    site_dir: &str,
    config_path: &str,
    cli_options_json: &str,
) -> (r: String)
    ensures
        r@ == runner_script_text(addon_path@, command@, site_dir@, config_path@, cli_options_json@),
{
    let addon_esc = escape_js_string(addon_path);
    let site_esc = escape_js_string(site_dir);
    let config_esc = escape_js_string(config_path);
    let mut s = String::from_str("require('");
    s.append(addon_esc.as_str());
    s.append("').");
    s.append(command);
    s.append("('");
    s.append(site_esc.as_str());
    s.append("', '");
    s.append(config_esc.as_str());
    s.append("', ");
    s.append(cli_options_json);
    s.append(");");
    s
}

/// Each of the three paths stands in the script as the whole body of a
/// single-quoted literal whose value is that path, whatever characters the
/// paths hold.
pub proof fn lemma_runner_script_embeds_paths(
    addon_path: Seq<char>,
    command: Seq<char>,
    site_dir: Seq<char>,
    config_path: Seq<char>,
    cli_options_json: Seq<char>,
)
    ensures
        ({
            let text = runner_script_text(addon_path, command, site_dir, config_path, cli_options_json);
            let q = seq!['\''];
            exists|p0: Seq<char>, b1: Seq<char>, p1: Seq<char>, b2: Seq<char>, p2: Seq<char>, b3: Seq<char>, p3: Seq<char>|
                text == p0 + q + b1 + q + p1 + q + b2 + q + p2 + q + b3 + q + p3
                    && single_quoted_value(b1) == Some(addon_path)
                    && single_quoted_value(b2) == Some(site_dir)
                    && single_quoted_value(b3) == Some(config_path)
        }),
{
    reveal_strlit("require('");
    reveal_strlit("').");
    reveal_strlit("('");
    reveal_strlit("', '");
    reveal_strlit("', ");
    let q = seq!['\''];
    let k = LiteralKind::SingleQuoted;
    let p0 = "require('"@.drop_last();
    let b1 = escaped(k, addon_path);
    let p1 = "')."@.drop_first() + command + seq!['('];
    let b2 = escaped(k, site_dir);
    let p2 = seq![',', ' '];
    let b3 = escaped(k, config_path);
    let p3 = "', "@.drop_first() + cli_options_json + ");"@;
    assert("require('"@ =~= p0 + q);
    assert("')."@ =~= q + "')."@.drop_first());
    assert("('"@ =~= seq!['('] + q);
    assert("', '"@ =~= q + p2 + q);
    assert("', "@ =~= q + "', "@.drop_first());
    let text = runner_script_text(addon_path, command, site_dir, config_path, cli_options_json);
    assert(text =~= p0 + q + b1 + q + p1 + q + b2 + q + p2 + q + b3 + q + p3);
    lemma_single_quoted_round_trip(addon_path);
    lemma_single_quoted_round_trip(site_dir);
    lemma_single_quoted_round_trip(config_path);
}

/// What a finished `node` process means: success when it exited successfully,
/// otherwise `CommandFailed` with its exit code, or `-1` when it has none
/// (it was ended by a signal).
pub fn command_status(success: bool, code: Option<i32>) -> (r: Result<(), DocusaurusError>)
    ensures
        success ==> r is Ok,
        !success ==> (r matches Err(e) && e@ == DocusaurusErrorView::CommandFailed(
            match code {
                Some(c) => c,
                None => -1i32,
            },
        )),
{
    if success {
        Ok(())
    } else {
        let status = match code {
            Some(c) => c,
            None => -1,
        };
        Err(DocusaurusError::CommandFailed(status))
    }
}

} // verus!
