use vstd::prelude::*;

use crate::error::DocusaurusError;
use crate::js::{escape_for, escaped, lemma_template_round_trip, template_value, LiteralKind};
use crate::paths::{part_views, path_exists, path_is_executable, search_record, search_upward, text_of};
use crate::text::same_text;

verus! {

/// The path below a directory at which the `docusaurus` executable is looked for.
pub open spec fn docusaurus_bin_parts() -> Seq<Seq<char>> {
    seq!["node_modules"@, ".bin"@, "docusaurus"@]
}

/// The path a search returned, or `None` when it failed.
pub open spec fn found_path(r: Result<String, DocusaurusError>) -> Option<Seq<char>> {
    match r {
        Ok(f) => Some(f@),
        Err(_) => None,
    }
}

/// Walk up from `site_dir` until a `node_modules/.bin/docusaurus` executable is found.
///
/// Each directory, starting with `site_dir`, is probed for an executable file
/// at `node_modules/.bin/docusaurus`; the first that has one is returned.
/// The walk goes from parent to parent as `Path::parent` gives them, so
/// callers pass an absolute (canonical) `site_dir`: a relative one would end
/// at its first component instead of reaching the real parent directories.
/// `DocusaurusBinNotFound` comes only when the probe of every ancestor, up to
/// one with no parent, answered no.
pub fn find_docusaurus_bin(site_dir: &str) -> (r: Result<String, DocusaurusError>)
    ensures
        r matches Err(e) ==> e is DocusaurusBinNotFound,
        exists|answers: Seq<bool>|
            #[trigger] search_record(site_dir@, docusaurus_bin_parts(), answers, found_path(r)),
{
    let parts: Vec<&str> = vec!["node_modules", ".bin", "docusaurus"];
    assert(part_views(parts@) =~= docusaurus_bin_parts());
    let found = search_upward(site_dir, &parts, |p: String| path_is_executable(p.as_str()));
    let r = match found {
        Some(f) => Ok(f),
        None => Err(DocusaurusError::DocusaurusBinNotFound),
    };
    proof {
        let answers = choose|answers: Seq<bool>|
            #[trigger] search_record(site_dir@, part_views(parts@), answers, text_of(found));
        assert(found_path(r) == text_of(found));
        assert(search_record(site_dir@, docusaurus_bin_parts(), answers, found_path(r)));
    }
    r
}

/// The platform part of the prebuilt addon's file name for the operating
/// system `os` and architecture `arch` (as Rust names them in
/// `std::env::consts`); `None` for a platform with no prebuilt addon.
pub open spec fn addon_platform_tag(os: Seq<char>, arch: Seq<char>) -> Option<Seq<char>> {
    if os == "macos"@ && arch == "aarch64"@ {
        Some("darwin-arm64"@)
    } else if os == "macos"@ && arch == "x86_64"@ {
        Some("darwin-x64"@)
    } else if os == "linux"@ && arch == "x86_64"@ {
        Some("linux-x64-gnu"@)
    } else if os == "linux"@ && arch == "aarch64"@ {
        Some("linux-arm64-gnu"@)
    } else if os == "windows"@ && arch == "x86_64"@ {
        Some("win32-x64-msvc"@)
    } else {
        None
    }
}

/// The platform part of the prebuilt addon's file name for `os` and `arch`.
pub fn addon_platform(os: &str, arch: &str) -> (r: Option<String>)
    ensures
        match r {
            Some(tag) => addon_platform_tag(os@, arch@) == Some(tag@),
            None => addon_platform_tag(os@, arch@) is None,
        },
{
    let macos = same_text(os, "macos");
    let linux = same_text(os, "linux");
    let windows = same_text(os, "windows");
    let arm = same_text(arch, "aarch64");
    let x64 = same_text(arch, "x86_64");
    if macos && arm {
        Some(String::from_str("darwin-arm64"))
    } else if macos && x64 {
        Some(String::from_str("darwin-x64"))
    } else if linux && x64 {
        Some(String::from_str("linux-x64-gnu"))
    } else if linux && arm {
        Some(String::from_str("linux-arm64-gnu"))
    } else if windows && x64 {
        Some(String::from_str("win32-x64-msvc"))
    } else {
        None
    }
}

/// The path below a directory at which the addon built for `tag` is looked for.
pub open spec fn addon_parts(tag: Seq<char>) -> Seq<Seq<char>> {
    seq!["node_modules"@, "docusau-rs"@, "docusau_rs."@ + tag + ".node"@]
}

/// Walk up from `site_dir` until the prebuilt `docusau-rs` addon for the
/// platform (`os`, `arch`) is found at `node_modules/docusau-rs/docusau_rs.<platform>.node`.
///
/// Each directory, starting with `site_dir`, is probed for that file; the
/// first that has it is returned. As for `find_docusaurus_bin`, callers pass
/// an absolute (canonical) `site_dir`. `AddonNotFound` comes when no addon is
/// built for the platform (before any probe), or when the probe of every
/// ancestor, up to one with no parent, answered no.
pub fn find_addon(site_dir: &str, os: &str, arch: &str) -> (r: Result<String, DocusaurusError>)
    ensures
        r matches Err(e) ==> e is AddonNotFound,
        addon_platform_tag(os@, arch@) is None ==> r is Err,
        addon_platform_tag(os@, arch@) is Some ==> exists|answers: Seq<bool>|
            #[trigger] search_record(
                site_dir@,
                addon_parts(addon_platform_tag(os@, arch@)->0),
                answers,
                found_path(r),
            ),
{
    let tag = match addon_platform(os, arch) {
        Some(tag) => tag,
        None => return Err(DocusaurusError::AddonNotFound),
    };
    let file = String::from_str("docusau_rs.").concat(tag.as_str()).concat(".node");
    let parts: Vec<&str> = vec!["node_modules", "docusau-rs", file.as_str()];
    assert(part_views(parts@) =~= addon_parts(tag@));
    let found = search_upward(site_dir, &parts, |p: String| path_exists(p.as_str()));
    let r = match found {
        Some(f) => Ok(f),
        None => Err(DocusaurusError::AddonNotFound),
    };
    proof {
        let answers = choose|answers: Seq<bool>|
            #[trigger] search_record(site_dir@, part_views(parts@), answers, text_of(found));
        assert(found_path(r) == text_of(found));
        let t = addon_platform_tag(os@, arch@)->0;
        assert(t == tag@);
        assert(addon_parts(t) == part_views(parts@));
        assert(search_record(site_dir@, addon_parts(t), answers, found_path(r)));
    }
    r
}

/// The CommonJS module that hands `config_json` to Docusaurus:
/// `module.exports = JSON.parse(` + a template literal holding the JSON + `);`.
pub open spec fn temp_config_text(config_json: Seq<char>) -> Seq<char> {
    "module.exports = JSON.parse(`"@ + escaped(LiteralKind::Template, config_json) + "`);\n"@
}

/// The text of the temporary JS config module for `config_json`:
/// `config_json` with `\` written `\\` and `` ` `` written `` \` ``, inside a
/// template literal handed to `JSON.parse`. A `$` is written `\$` where a `{`
/// follows it, the one place where the text would otherwise start a
/// substitution; every other character stays as it is.
pub fn temp_config_source(config_json: &str) -> (r: String)
    ensures
        r@ == temp_config_text(config_json@),
{
    let body = escape_for(LiteralKind::Template, config_json);
    String::from_str("module.exports = JSON.parse(`").concat(body.as_str()).concat("`);\n")
}

/// The template literal in the config module is exactly the one written
/// between the first backtick and the last, and its cooked value is the JSON
/// text itself, for every text without a raw carriage return (which
/// serde_json never writes: it escapes one inside a string as `\r`).
pub proof fn lemma_temp_config_carries_json(config_json: Seq<char>)
    requires
        !config_json.contains('\r'),
    ensures
        exists|before: Seq<char>, body: Seq<char>, after: Seq<char>|
            temp_config_text(config_json) == before + seq!['`'] + body + seq!['`'] + after
                && template_value(body) == Some(config_json),
{
    reveal_strlit("module.exports = JSON.parse(`");
    reveal_strlit("`);\n");
    let before = "module.exports = JSON.parse(`"@.drop_last();
    let body = escaped(LiteralKind::Template, config_json);
    let after = "`);\n"@.drop_first();
    assert("module.exports = JSON.parse(`"@ =~= before + seq!['`']);
    assert("`);\n"@ =~= seq!['`'] + after);
    assert(temp_config_text(config_json) =~= before + seq!['`'] + body + seq!['`'] + after);
    lemma_template_round_trip(config_json);
}

} // verus!
