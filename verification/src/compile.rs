use vstd::prelude::*;

use crate::error::{DocusaurusError, DocusaurusErrorView, IoKind};
use crate::paths::{joined_path, path_join};
use crate::text::{text_ends_with, text_starts_with};

verus! {

/// The operating system family the config library is built for; it decides
/// the file name of the built library.
#[derive(Clone, Copy, Debug, PartialEq, Eq, Structural)]
pub enum TargetOs {
    MacOs,
    Windows,
    Other,
}

/// The file name ending of a dynamic library on `os`.
pub open spec fn dylib_suffix(os: TargetOs) -> Seq<char> {
    match os {
        TargetOs::MacOs => ".dylib"@,
        TargetOs::Windows => ".dll"@,
        TargetOs::Other => ".so"@,
    }
}

/// Whether `name` is the file name of a dynamic library built by cargo on
/// `os`: it ends in the platform's suffix and, except on Windows, begins with `lib`.
pub open spec fn is_dylib_name(os: TargetOs, name: Seq<char>) -> bool {
    &&& ("lib"@.is_prefix_of(name) || os == TargetOs::Windows)
    &&& dylib_suffix(os).is_suffix_of(name)
}

/// Whether `name` is the file name of a dynamic library built by cargo on `os`.
pub fn dylib_name_matches(os: TargetOs, name: &str) -> (r: bool)
    ensures
        r == is_dylib_name(os, name@),
{
    let is_lib = text_starts_with(name, "lib") || os == TargetOs::Windows;
    let suffix = match os {
        TargetOs::MacOs => ".dylib",
        TargetOs::Windows => ".dll",
        TargetOs::Other => ".so",
    };
    let has_suffix = text_ends_with(name, suffix);
    is_lib && has_suffix
}

/// The index of the first of `names` that is a dynamic library name on `os`.
pub open spec fn first_dylib(os: TargetOs, names: Seq<Seq<char>>) -> Option<int>
    decreases names.len(),
{
    if names.len() == 0 {
        None
    } else if is_dylib_name(os, names[0]) {
        Some(0)
    } else {
        match first_dylib(os, names.drop_first()) {
            Some(i) => Some(i + 1),
            None => None,
        }
    }
}

proof fn lemma_first_dylib(os: TargetOs, names: Seq<Seq<char>>, i: int)
    requires
        0 <= i <= names.len(),
        forall|j: int| 0 <= j < i ==> !is_dylib_name(os, #[trigger] names[j]),
        i < names.len() ==> is_dylib_name(os, names[i]),
    ensures
        first_dylib(os, names) == (if i < names.len() { Some(i) } else { None::<int> }),
    decreases i,
{
    if i > 0 {
        let rest = names.drop_first();
        assert forall|j: int| 0 <= j < i - 1 implies !is_dylib_name(os, #[trigger] rest[j]) by {
            assert(rest[j] == names[j + 1]);
        }
        if i < names.len() {
            assert(rest[i - 1] == names[i]);
        }
        lemma_first_dylib(os, rest, i - 1);
        assert(!is_dylib_name(os, names[0]));
    }
}

/// The first of the directory entry names `names` that is a dynamic library
/// on `os`, by index.
pub fn pick_dylib(os: TargetOs, names: &Vec<String>) -> (r: Option<usize>)
    ensures
        match r {
            Some(i) => i < names.len() && first_dylib(os, names@.map_values(|n: String| n@)) == Some(
                i as int,
            ),
            None => first_dylib(os, names@.map_values(|n: String| n@)) is None,
        },
{
    let ghost views = names@.map_values(|n: String| n@);
    let mut i: usize = 0;
    while i < names.len()
        invariant
            i <= names.len(),
            views == names@.map_values(|n: String| n@),
            forall|j: int| 0 <= j < i ==> !is_dylib_name(os, #[trigger] views[j]),
        decreases names.len() - i,
    {
        if dylib_name_matches(os, names[i].as_str()) {
            proof {
                lemma_first_dylib(os, views, i as int);
            }
            return Some(i);
        }
        i = i + 1;
    }
    proof {
        lemma_first_dylib(os, views, i as int);
    }
    None
}

/// The site's config source, `docusaurus.config.rs`.
pub open spec fn config_rs_path(site: Seq<char>) -> Seq<char> {
    joined_path(site, "docusaurus.config.rs"@)
}

/// The site's `src` directory.
pub open spec fn src_dir_path(site: Seq<char>) -> Seq<char> {
    joined_path(site, "src"@)
}

/// The lib entry point cargo builds, `src/lib.rs`.
pub open spec fn lib_rs_path(site: Seq<char>) -> Seq<char> {
    joined_path(src_dir_path(site), "lib.rs"@)
}

/// The site's `Cargo.toml`.
pub open spec fn manifest_path(site: Seq<char>) -> Seq<char> {
    joined_path(site, "Cargo.toml"@)
}

/// Where cargo puts the built library, `target/debug`.
pub open spec fn target_dir_path(site: Seq<char>) -> Seq<char> {
    joined_path(joined_path(site, "target"@), "debug"@)
}

/// Where a build of the config stands: which report it waits for next.
pub enum CompileStage {
    /// Waits to learn whether `docusaurus.config.rs` exists.
    AwaitConfig,
    /// Waits for `src/` to be created.
    AwaitSrcDir,
    /// Waits to learn whether `src/lib.rs` exists already.
    AwaitLibCheck,
    /// Waits for the config to be copied to `src/lib.rs`.
    AwaitCopy,
    /// Waits for `cargo build` to finish.
    AwaitCargo,
    /// Waits for the copied `src/lib.rs` to be removed; holds what ends the build.
    AwaitCleanup { pending: PendingEnd },
    /// Waits for the names of the entries of `target/debug`.
    AwaitListing,
    /// The build is over.
    Finished,
}

/// What ends a build once the copied `src/lib.rs` is removed: cargo's run,
/// or an I/O failure (of the copy, or of starting cargo).
pub enum PendingEnd {
    CargoRan { success: bool, stderr: String },
    IoFailed(IoKind, String),
}

pub enum PendingEndView {
    CargoRan { success: bool, stderr: Seq<char> },
    IoFailed(IoKind, Seq<char>),
}

impl View for PendingEnd {
    type V = PendingEndView;

    open spec fn view(&self) -> PendingEndView {
        match self {
            PendingEnd::CargoRan { success, stderr } => PendingEndView::CargoRan {
                success: *success,
                stderr: stderr@,
            },
            PendingEnd::IoFailed(k, m) => PendingEndView::IoFailed(*k, m@),
        }
    }
}

/// What the caller does next for a build of the config.
pub enum CompileAction {
    /// Report `Exists` for this path.
    CheckExists(String),
    /// Create this directory and its parents; report `Done` or `Failed`.
    CreateDirAll(String),
    /// Copy the file `from` to `to`; report `Done` or `Failed`.
    Copy { from: String, to: String },
    /// Run `cargo build --lib --manifest-path <manifest>`; report
    /// `CargoFinished`, or `Failed` when cargo could not be run.
    RunCargo { manifest: String },
    /// Remove this file; report `Done` or `Failed` (either way the build goes on).
    RemoveFile(String),
    /// Report the names of this directory's entries, as `Listed`, or `Failed`.
    ListDir(String),
    /// The build is over, with the path of the built library or an error.
    Finish(Result<String, DocusaurusError>),
}

/// What the caller reports back after an action.
pub enum CompileEvent {
    Exists(bool),
    Done,
    Failed(IoKind, String),
    CargoFinished { success: bool, stderr: String },
    Listed(Vec<String>),
}

/// A build of the config library of one site.
pub struct CompileRun {
    site_dir: String,
    os: TargetOs,
    stage: CompileStage,
    injected: bool,
    cleaned: bool,
}

pub enum CompileStageView {
    AwaitConfig,
    AwaitSrcDir,
    AwaitLibCheck,
    AwaitCopy,
    AwaitCargo,
    AwaitCleanup { pending: PendingEndView },
    AwaitListing,
    Finished,
}

pub enum CompileActionView {
    CheckExists(Seq<char>),
    CreateDirAll(Seq<char>),
    Copy { from: Seq<char>, to: Seq<char> },
    RunCargo { manifest: Seq<char> },
    RemoveFile(Seq<char>),
    ListDir(Seq<char>),
    Finish(Result<Seq<char>, DocusaurusErrorView>),
}

pub enum CompileEventView {
    Exists(bool),
    Done,
    Failed(IoKind, Seq<char>),
    CargoFinished { success: bool, stderr: Seq<char> },
    Listed(Seq<Seq<char>>),
}

pub struct CompileRunView {
    pub site_dir: Seq<char>,
    pub os: TargetOs,
    pub stage: CompileStageView,
    /// Whether this build copies the config to `src/lib.rs`.
    pub injected: bool,
    /// Whether this build has asked for its copy to be removed.
    pub cleaned: bool,
}

impl View for CompileStage {
    type V = CompileStageView;

    open spec fn view(&self) -> CompileStageView {
        match self {
            CompileStage::AwaitConfig => CompileStageView::AwaitConfig,
            CompileStage::AwaitSrcDir => CompileStageView::AwaitSrcDir,
            CompileStage::AwaitLibCheck => CompileStageView::AwaitLibCheck,
            CompileStage::AwaitCopy => CompileStageView::AwaitCopy,
            CompileStage::AwaitCargo => CompileStageView::AwaitCargo,
            CompileStage::AwaitCleanup { pending } => CompileStageView::AwaitCleanup {
                pending: pending@,
            },
            CompileStage::AwaitListing => CompileStageView::AwaitListing,
            CompileStage::Finished => CompileStageView::Finished,
        }
    }
}

impl View for CompileAction {
    type V = CompileActionView;

    open spec fn view(&self) -> CompileActionView {
        match self {
            CompileAction::CheckExists(p) => CompileActionView::CheckExists(p@),
            CompileAction::CreateDirAll(p) => CompileActionView::CreateDirAll(p@),
            CompileAction::Copy { from, to } => CompileActionView::Copy { from: from@, to: to@ },
            CompileAction::RunCargo { manifest } => CompileActionView::RunCargo {
                manifest: manifest@,
            },
            CompileAction::RemoveFile(p) => CompileActionView::RemoveFile(p@),
            CompileAction::ListDir(p) => CompileActionView::ListDir(p@),
            CompileAction::Finish(r) => CompileActionView::Finish(
                match r {
                    Ok(p) => Ok(p@),
                    Err(e) => Err(e@),
                },
            ),
        }
    }
}

impl View for CompileEvent {
    type V = CompileEventView;

    open spec fn view(&self) -> CompileEventView {
        match self {
            CompileEvent::Exists(b) => CompileEventView::Exists(*b),
            CompileEvent::Done => CompileEventView::Done,
            CompileEvent::Failed(k, m) => CompileEventView::Failed(*k, m@),
            CompileEvent::CargoFinished { success, stderr } => CompileEventView::CargoFinished {
                success: *success,
                stderr: stderr@,
            },
            CompileEvent::Listed(names) => CompileEventView::Listed(
                names@.map_values(|n: String| n@),
            ),
        }
    }
}

impl View for CompileRun {
    type V = CompileRunView;

    closed spec fn view(&self) -> CompileRunView {
        CompileRunView {
            site_dir: self.site_dir@,
            os: self.os,
            stage: self.stage@,
            injected: self.injected,
            cleaned: self.cleaned,
        }
    }
}

/// Whether a build at `stage` takes the report `ev` next.
pub open spec fn expects(stage: CompileStageView, ev: CompileEventView) -> bool {
    match stage {
        CompileStageView::AwaitConfig | CompileStageView::AwaitLibCheck => ev is Exists,
        CompileStageView::AwaitSrcDir | CompileStageView::AwaitCopy
        | CompileStageView::AwaitCleanup { .. } => ev is Done || ev is Failed,
        CompileStageView::AwaitCargo => ev is CargoFinished || ev is Failed,
        CompileStageView::AwaitListing => ev is Listed || ev is Failed,
        CompileStageView::Finished => false,
    }
}

/// The state with a new stage.
pub open spec fn at_stage(run: CompileRunView, stage: CompileStageView) -> CompileRunView {
    CompileRunView { stage, ..run }
}

/// After cargo has finished (and the copy is cleaned up): a failed build
/// ends with cargo's standard error; a good one lists `target/debug`.
pub open spec fn after_cargo(run: CompileRunView, success: bool, stderr: Seq<char>) -> (
    CompileRunView,
    CompileActionView,
) {
    if !success {
        (
            at_stage(run, CompileStageView::Finished),
            CompileActionView::Finish(Err(DocusaurusErrorView::CompileFailed(stderr))),
        )
    } else {
        (
            at_stage(run, CompileStageView::AwaitListing),
            CompileActionView::ListDir(target_dir_path(run.site_dir)),
        )
    }
}

/// Removing the copy before the build ends with `pending`.
pub open spec fn start_cleanup(run: CompileRunView, pending: PendingEndView) -> (
    CompileRunView,
    CompileActionView,
) {
    (
        CompileRunView {
            stage: CompileStageView::AwaitCleanup { pending },
            cleaned: true,
            ..run
        },
        CompileActionView::RemoveFile(lib_rs_path(run.site_dir)),
    )
}

/// How the build goes on once the copy is removed (or when there was none).
pub open spec fn end_with(run: CompileRunView, pending: PendingEndView) -> (
    CompileRunView,
    CompileActionView,
) {
    match pending {
        PendingEndView::CargoRan { success, stderr } => after_cargo(run, success, stderr),
        PendingEndView::IoFailed(k, m) => (
            at_stage(run, CompileStageView::Finished),
            CompileActionView::Finish(Err(DocusaurusErrorView::Io(k, m))),
        ),
    }
}

/// The build after the report `ev`, and what the caller does next.
pub open spec fn compile_next(run: CompileRunView, ev: CompileEventView) -> (
    CompileRunView,
    CompileActionView,
) {
    let site = run.site_dir;
    let finished = at_stage(run, CompileStageView::Finished);
    match (run.stage, ev) {
        (CompileStageView::AwaitConfig, CompileEventView::Exists(false)) => (
            finished,
            CompileActionView::Finish(Err(DocusaurusErrorView::ConfigNotFound(site))),
        ),
        (CompileStageView::AwaitConfig, CompileEventView::Exists(true)) => (
            at_stage(run, CompileStageView::AwaitSrcDir),
            CompileActionView::CreateDirAll(src_dir_path(site)),
        ),
        (CompileStageView::AwaitSrcDir, CompileEventView::Done) => (
            at_stage(run, CompileStageView::AwaitLibCheck),
            CompileActionView::CheckExists(lib_rs_path(site)),
        ),
        (CompileStageView::AwaitLibCheck, CompileEventView::Exists(true)) => (
            CompileRunView { stage: CompileStageView::AwaitCargo, injected: false, ..run },
            CompileActionView::RunCargo { manifest: manifest_path(site) },
        ),
        (CompileStageView::AwaitLibCheck, CompileEventView::Exists(false)) => (
            CompileRunView { stage: CompileStageView::AwaitCopy, injected: true, ..run },
            CompileActionView::Copy { from: config_rs_path(site), to: lib_rs_path(site) },
        ),
        (CompileStageView::AwaitCopy, CompileEventView::Done) => (
            at_stage(run, CompileStageView::AwaitCargo),
            CompileActionView::RunCargo { manifest: manifest_path(site) },
        ),
        (CompileStageView::AwaitCopy, CompileEventView::Failed(k, m)) => start_cleanup(
            run,
            PendingEndView::IoFailed(k, m),
        ),
        (CompileStageView::AwaitCargo, CompileEventView::CargoFinished { success, stderr }) => {
            if run.injected {
                start_cleanup(run, PendingEndView::CargoRan { success, stderr })
            } else {
                after_cargo(run, success, stderr)
            }
        },
        (CompileStageView::AwaitCargo, CompileEventView::Failed(k, m)) => {
            if run.injected {
                start_cleanup(run, PendingEndView::IoFailed(k, m))
            } else {
                end_with(run, PendingEndView::IoFailed(k, m))
            }
        },
        (CompileStageView::AwaitCleanup { pending }, _) => end_with(run, pending),
        (CompileStageView::AwaitListing, CompileEventView::Listed(names)) => match first_dylib(
            run.os,
            names,
        ) {
            Some(i) => (
                finished,
                CompileActionView::Finish(Ok(joined_path(target_dir_path(site), names[i]))),
            ),
            None => (
                finished,
                CompileActionView::Finish(
                    Err(
                        DocusaurusErrorView::Io(
                            IoKind::NotFound,
                            "no dylib found in "@ + target_dir_path(site),
                        ),
                    ),
                ),
            ),
        },
        (_, CompileEventView::Failed(k, m)) => (
            finished,
            CompileActionView::Finish(Err(DocusaurusErrorView::Io(k, m))),
        ),
        _ => (finished, CompileActionView::Finish(Err(DocusaurusErrorView::Io(IoKind::Other, Seq::empty())))),
    }
}

/// Compile `docusaurus.config.rs` in `site_dir` into a cdylib.
///
/// Expects a `Cargo.toml` at `site_dir` whose lib target has `crate-type = ["cdylib"]`
/// and exports the `config` symbol. Cargo requires the lib entry point at
/// `src/lib.rs`: when there is none, the config is copied there before the
/// build and the copy removed after it; the config itself is never touched.
///
/// This starts the build: the caller performs each action and reports back
/// to `CompileRun::step` until the action is `Finish`.
pub fn compile_config(site_dir: &str, os: TargetOs) -> (r: (CompileRun, CompileAction))
    ensures
        r.0@ == (CompileRunView {
            site_dir: site_dir@,
            os,
            stage: CompileStageView::AwaitConfig,
            injected: false,
            cleaned: false,
        }),
        r.1@ == CompileActionView::CheckExists(config_rs_path(site_dir@)),
{
    let run = CompileRun {
        site_dir: String::from_str(site_dir),
        os,
        stage: CompileStage::AwaitConfig,
        injected: false,
        cleaned: false,
    };
    let config_rs = path_join(site_dir, "docusaurus.config.rs");
    (run, CompileAction::CheckExists(config_rs))
}

impl CompileRun {
    /// Whether the build takes `event` as its next report.
    pub fn accepts(&self, event: &CompileEvent) -> (r: bool)
        ensures
            r == expects(self@.stage, event@),
    {
        match (&self.stage, event) {
            (CompileStage::AwaitConfig, CompileEvent::Exists(_)) => true,
            (CompileStage::AwaitLibCheck, CompileEvent::Exists(_)) => true,
            (CompileStage::AwaitSrcDir, CompileEvent::Done) => true,
            (CompileStage::AwaitSrcDir, CompileEvent::Failed(..)) => true,
            (CompileStage::AwaitCopy, CompileEvent::Done) => true,
            (CompileStage::AwaitCopy, CompileEvent::Failed(..)) => true,
            (CompileStage::AwaitCleanup { .. }, CompileEvent::Done) => true,
            (CompileStage::AwaitCleanup { .. }, CompileEvent::Failed(..)) => true,
            (CompileStage::AwaitCargo, CompileEvent::CargoFinished { .. }) => true,
            (CompileStage::AwaitCargo, CompileEvent::Failed(..)) => true,
            (CompileStage::AwaitListing, CompileEvent::Listed(_)) => true,
            (CompileStage::AwaitListing, CompileEvent::Failed(..)) => true,
            _ => false,
        }
    }

    /// Whether the build is over.
    pub fn is_finished(&self) -> (r: bool)
        ensures
            r == (self@.stage is Finished),
    {
        match self.stage {
            CompileStage::Finished => true,
            _ => false,
        }
    }

    fn start_cleanup(&mut self, pending: PendingEnd) -> (a: CompileAction)
        ensures
            (final(self)@, a@) == start_cleanup(old(self)@, pending@),
    {
        let src_dir = path_join(self.site_dir.as_str(), "src");
        let lib_rs = path_join(src_dir.as_str(), "lib.rs");
        self.stage = CompileStage::AwaitCleanup { pending };
        self.cleaned = true;
        CompileAction::RemoveFile(lib_rs)
    }

    fn end_with(&mut self, pending: PendingEnd) -> (a: CompileAction)
        ensures
            (final(self)@, a@) == end_with(old(self)@, pending@),
    {
        match pending {
            PendingEnd::CargoRan { success, stderr } => self.after_cargo(success, stderr),
            PendingEnd::IoFailed(k, m) => {
                self.stage = CompileStage::Finished;
                CompileAction::Finish(Err(DocusaurusError::Io(k, m)))
            },
        }
    }

    fn after_cargo(&mut self, success: bool, stderr: String) -> (a: CompileAction)
        ensures
            (final(self)@, a@) == after_cargo(old(self)@, success, stderr@),
    {
        if !success {
            self.stage = CompileStage::Finished;
            CompileAction::Finish(Err(DocusaurusError::CompileFailed(stderr)))
        } else {
            self.stage = CompileStage::AwaitListing;
            let target = path_join(self.site_dir.as_str(), "target");
            CompileAction::ListDir(path_join(target.as_str(), "debug"))
        }
    }

    /// Takes the report `event` on the last action and gives the next action.
    pub fn step(&mut self, event: CompileEvent) -> (a: CompileAction)
        requires
            expects(old(self)@.stage, event@),
        ensures
            (final(self)@, a@) == compile_next(old(self)@, event@),
    {
        let site = self.site_dir.as_str();
        let mut stage = CompileStage::Finished;
        std::mem::swap(&mut stage, &mut self.stage);
        match (stage, event) {
            (CompileStage::AwaitConfig, CompileEvent::Exists(exists)) => {
                if !exists {
                    CompileAction::Finish(Err(DocusaurusError::ConfigNotFound(String::from_str(site))))
                } else {
                    self.stage = CompileStage::AwaitSrcDir;
                    CompileAction::CreateDirAll(path_join(site, "src"))
                }
            },
            (CompileStage::AwaitSrcDir, CompileEvent::Done) => {
                self.stage = CompileStage::AwaitLibCheck;
                let src_dir = path_join(site, "src");
                CompileAction::CheckExists(path_join(src_dir.as_str(), "lib.rs"))
            },
            (CompileStage::AwaitLibCheck, CompileEvent::Exists(exists)) => {
                let src_dir = path_join(site, "src");
                let lib_rs = path_join(src_dir.as_str(), "lib.rs");
                if exists {
                    self.injected = false;
                    self.stage = CompileStage::AwaitCargo;
                    CompileAction::RunCargo { manifest: path_join(site, "Cargo.toml") }
                } else {
                    self.injected = true;
                    self.stage = CompileStage::AwaitCopy;
                    CompileAction::Copy {
                        from: path_join(site, "docusaurus.config.rs"),
                        to: lib_rs,
                    }
                }
            },
            (CompileStage::AwaitCopy, CompileEvent::Done) => {
                self.stage = CompileStage::AwaitCargo;
                CompileAction::RunCargo { manifest: path_join(site, "Cargo.toml") }
            },
            (CompileStage::AwaitCopy, CompileEvent::Failed(k, m)) => {
                self.start_cleanup(PendingEnd::IoFailed(k, m))
            },
            (CompileStage::AwaitCargo, CompileEvent::CargoFinished { success, stderr }) => {
                if self.injected {
                    self.start_cleanup(PendingEnd::CargoRan { success, stderr })
                } else {
                    self.after_cargo(success, stderr)
                }
            },
            (CompileStage::AwaitCargo, CompileEvent::Failed(k, m)) => {
                if self.injected {
                    self.start_cleanup(PendingEnd::IoFailed(k, m))
                } else {
                    self.end_with(PendingEnd::IoFailed(k, m))
                }
            },
            (CompileStage::AwaitCleanup { pending }, _) => self.end_with(pending),
            (CompileStage::AwaitListing, CompileEvent::Listed(names)) => {
                let target = path_join(site, "target");
                let target_dir = path_join(target.as_str(), "debug");
                match pick_dylib(self.os, &names) {
                    Some(i) => CompileAction::Finish(Ok(path_join(target_dir.as_str(), names[i].as_str()))),
                    None => CompileAction::Finish(
                        Err(
                            DocusaurusError::Io(
                                IoKind::NotFound,
                                String::from_str("no dylib found in ").concat(target_dir.as_str()),
                            ),
                        ),
                    ),
                }
            },
            (_, CompileEvent::Failed(k, m)) => CompileAction::Finish(Err(DocusaurusError::Io(k, m))),
            _ => CompileAction::Finish(Err(DocusaurusError::Io(IoKind::Other, String::new()))),
        }
    }
}

/// What holds of a build at each stage it can reach: the copy of the config
/// is made only on the way to the copy stage, and a removal of it is asked
/// for exactly when the build enters the cleanup stage.
pub open spec fn copy_accounted(run: CompileRunView) -> bool {
    &&& run.cleaned ==> run.injected
    &&& match run.stage {
        CompileStageView::AwaitConfig | CompileStageView::AwaitSrcDir
        | CompileStageView::AwaitLibCheck => !run.injected && !run.cleaned,
        CompileStageView::AwaitCopy => run.injected && !run.cleaned,
        CompileStageView::AwaitCargo => !run.cleaned,
        CompileStageView::AwaitCleanup { .. } => run.injected && run.cleaned,
        CompileStageView::AwaitListing | CompileStageView::Finished => run.injected
            ==> run.cleaned,
    }
}

/// A build starts with nothing copied and nothing removed.
pub proof fn lemma_copy_accounted_at_start(site_dir: Seq<char>, os: TargetOs)
    ensures
        copy_accounted(
            CompileRunView {
                site_dir,
                os,
                stage: CompileStageView::AwaitConfig,
                injected: false,
                cleaned: false,
            },
        ),
{
}

/// A build never writes or removes the config file itself: the only file it
/// removes is `src/lib.rs`, and only when the build itself copied the config
/// there; the only copy it makes is of the config to `src/lib.rs`, and only
/// after finding that `src/lib.rs` did not exist.
pub proof fn lemma_config_never_touched(run: CompileRunView, ev: CompileEventView)
    requires
        copy_accounted(run),
        expects(run.stage, ev),
    ensures
        compile_next(run, ev).1 matches CompileActionView::RemoveFile(p) ==> p == lib_rs_path(
            run.site_dir,
        ) && run.injected,
        compile_next(run, ev).1 matches CompileActionView::Copy { from, to } ==> from
            == config_rs_path(run.site_dir) && to == lib_rs_path(run.site_dir) && run.stage
            is AwaitLibCheck && ev == CompileEventView::Exists(false),
        compile_next(run, ev).0.site_dir == run.site_dir,
{
}

/// A build that copies the config to `src/lib.rs` asks for the copy to be
/// removed before it ends, on every path: after cargo ran (whatever its
/// outcome), when cargo could not be started, and when the copy itself
/// failed. Each step keeps `copy_accounted`; the copy is asked for only in
/// the step that sets `injected`, the removal only in the step that sets
/// `cleaned`, and a build that set `injected` ends (`Finish`) only once
/// `cleaned` holds.
pub proof fn lemma_copy_removed_before_end(run: CompileRunView, ev: CompileEventView)
    requires
        copy_accounted(run),
        expects(run.stage, ev),
    ensures
        ({
            let (next, action) = compile_next(run, ev);
            &&& copy_accounted(next)
            &&& (action is Finish && next.injected) ==> next.cleaned
            &&& (!run.injected && next.injected) ==> action == (CompileActionView::Copy {
                from: config_rs_path(run.site_dir),
                to: lib_rs_path(run.site_dir),
            })
            &&& (!run.cleaned && next.cleaned) ==> action == CompileActionView::RemoveFile(
                lib_rs_path(run.site_dir),
            )
        }),
{
}

/// When cargo reports a successful build, the build goes on to list
/// `target/debug`: at once when nothing was copied, and right after removing
/// the copy (whatever the removal reports) when the config was copied.
pub proof fn lemma_successful_build_lists_target(run: CompileRunView, stderr: Seq<char>)
    requires
        copy_accounted(run),
        run.stage is AwaitCargo,
    ensures
        ({
            let (next, action) = compile_next(
                run,
                CompileEventView::CargoFinished { success: true, stderr },
            );
            &&& !run.injected ==> action == CompileActionView::ListDir(target_dir_path(run.site_dir))
            &&& run.injected ==> {
                &&& action == CompileActionView::RemoveFile(lib_rs_path(run.site_dir))
                &&& forall|ev: CompileEventView|
                    expects(next.stage, ev) ==> (#[trigger] compile_next(next, ev)).1
                        == CompileActionView::ListDir(target_dir_path(run.site_dir))
            }
        }),
{
}

/// A build ends with `CompileFailed` only when cargo reported failure, and
/// then with the standard error that cargo reported.
pub proof fn lemma_compile_failed_only_on_failure(run: CompileRunView, ev: CompileEventView)
    requires
        copy_accounted(run),
        expects(run.stage, ev),
    ensures
        compile_next(run, ev).1 matches CompileActionView::Finish(
            Err(DocusaurusErrorView::CompileFailed(out)),
        ) ==> (ev == CompileEventView::CargoFinished { success: false, stderr: out }
            && run.stage is AwaitCargo) || run.stage == (CompileStageView::AwaitCleanup {
            pending: PendingEndView::CargoRan { success: false, stderr: out },
        }),
{
}

} // verus!
