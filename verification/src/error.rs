use vstd::prelude::*;

verus! {

/// The kind of an I/O failure, as far as the library tells kinds apart.
#[derive(Debug, Clone, Copy, PartialEq, Eq, Structural)]
pub enum IoKind {
    /// An entity was not found.
    NotFound,
    /// The operation lacked the necessary privileges.
    PermissionDenied,
    /// An entity already exists.
    AlreadyExists,
    /// Data was not valid for the operation.
    InvalidData,
    /// Any other kind of failure.
    Other,
}

/// Everything that can go wrong between a site directory and a finished
/// Docusaurus command. Errors that an outside crate reports are held as the
/// text of that error.
#[derive(Debug)]
pub enum DocusaurusError {
    /// The site directory (given here) holds no `docusaurus.config.rs`.
    ConfigNotFound(String),
    /// `cargo build` failed; its standard error.
    CompileFailed(String),
    /// The compiled config library could not be loaded; the loader's message.
    DylibLoad(String),
    /// The config library handed back text that is not a valid config; serde_json's message.
    ConfigJson(String),
    /// No `docusaurus` executable (nor `node`) was found.
    DocusaurusBinNotFound,
    /// No prebuilt `docusau-rs` Node addon was found.
    AddonNotFound,
    /// An I/O operation failed; its kind and its message.
    Io(IoKind, String),
    /// The Docusaurus command exited with this status.
    CommandFailed(i32),
}

/// A `DocusaurusError` with its texts taken as sequences of characters.
pub enum DocusaurusErrorView {
    ConfigNotFound(Seq<char>),
    CompileFailed(Seq<char>),
    DylibLoad(Seq<char>),
    ConfigJson(Seq<char>),
    DocusaurusBinNotFound,
    AddonNotFound,
    Io(IoKind, Seq<char>),
    CommandFailed(i32),
}

impl View for DocusaurusError {
    type V = DocusaurusErrorView;

    open spec fn view(&self) -> DocusaurusErrorView {
        match self {
            DocusaurusError::ConfigNotFound(s) => DocusaurusErrorView::ConfigNotFound(s@),
            DocusaurusError::CompileFailed(s) => DocusaurusErrorView::CompileFailed(s@),
            DocusaurusError::DylibLoad(s) => DocusaurusErrorView::DylibLoad(s@),
            DocusaurusError::ConfigJson(s) => DocusaurusErrorView::ConfigJson(s@),
            DocusaurusError::DocusaurusBinNotFound => DocusaurusErrorView::DocusaurusBinNotFound,
            DocusaurusError::AddonNotFound => DocusaurusErrorView::AddonNotFound,
            DocusaurusError::Io(k, s) => DocusaurusErrorView::Io(*k, s@),
            DocusaurusError::CommandFailed(n) => DocusaurusErrorView::CommandFailed(*n),
        }
    }
}

/// The decimal digit `d` (below ten) as a character.
pub open spec fn digit_char(d: nat) -> char {
    if d == 0 { '0' }
    else if d == 1 { '1' }
    else if d == 2 { '2' }
    else if d == 3 { '3' }
    else if d == 4 { '4' }
    else if d == 5 { '5' }
    else if d == 6 { '6' }
    else if d == 7 { '7' }
    else if d == 8 { '8' }
    else { '9' }
}

/// The decimal digits of `n`, most significant first, with no leading zero.
pub open spec fn decimal_digits(n: nat) -> Seq<char>
    decreases n,
{
    if n < 10 {
        seq![digit_char(n)]
    } else {
        decimal_digits(n / 10) + seq![digit_char(n % 10)]
    }
}

/// `n` written in decimal, with a leading `-` when it is negative.
pub open spec fn decimal_text(n: int) -> Seq<char> {
    if n < 0 {
        seq!['-'] + decimal_digits((-n) as nat)
    } else {
        decimal_digits(n as nat)
    }
}

fn digit_text(d: u64) -> (r: &'static str)
    requires
        d < 10,
    ensures
        r@ == seq![digit_char(d as nat)],
{
    proof {
        reveal_strlit("0");
        reveal_strlit("1");
        reveal_strlit("2");
        reveal_strlit("3");
        reveal_strlit("4");
        reveal_strlit("5");
        reveal_strlit("6");
        reveal_strlit("7");
        reveal_strlit("8");
        reveal_strlit("9");
    }
    if d == 0 { "0" }
    else if d == 1 { "1" }
    else if d == 2 { "2" }
    else if d == 3 { "3" }
    else if d == 4 { "4" }
    else if d == 5 { "5" }
    else if d == 6 { "6" }
    else if d == 7 { "7" }
    else if d == 8 { "8" }
    else { "9" }
}

fn decimal_u64(n: u64) -> (r: String)
    ensures
        r@ == decimal_digits(n as nat),
    decreases n,
{
    if n < 10 {
        String::from_str(digit_text(n))
    } else {
        let high = decimal_u64(n / 10);
        high.concat(digit_text(n % 10))
    }
}

/// `n` in decimal, as `i32`'s `Display` writes it.
pub fn decimal_i32(n: i32) -> (r: String)
    ensures
        r@ == decimal_text(n as int),
{
    proof {
        reveal_strlit("-");
    }
    if n < 0 {
        let magnitude: i64 = -(n as i64);
        let digits = decimal_u64(magnitude as u64);
        String::from_str("-").concat(digits.as_str())
    } else {
        decimal_u64(n as u64)
    }
}

/// The message that the error shows.
pub open spec fn error_message(e: DocusaurusError) -> Seq<char> {
    match e {
        DocusaurusError::ConfigNotFound(dir) => "docusaurus.config.rs not found in "@ + dir@,
        DocusaurusError::CompileFailed(stderr) => "cargo build failed: "@ + stderr@,
        DocusaurusError::DylibLoad(m) => "failed to load dylib: "@ + m@,
        DocusaurusError::ConfigJson(m) => "config() symbol returned invalid JSON: "@ + m@,
        DocusaurusError::DocusaurusBinNotFound => "docusaurus not found in PATH \u{2014} install @docusaurus/core and ensure its bin directory is on PATH"@,
        DocusaurusError::AddonNotFound => "docusau-rs addon not found"@,
        DocusaurusError::Io(_, m) => "IO error: "@ + m@,
        DocusaurusError::CommandFailed(status) => "docusaurus command failed with status "@
            + decimal_text(status as int),
    }
}

impl DocusaurusError {
    /// The message that the error shows to a user.
    pub fn message(&self) -> (r: String)
        ensures
            r@ == error_message(*self),
    {
        match self {
            DocusaurusError::ConfigNotFound(dir) => String::from_str(
                "docusaurus.config.rs not found in ",
            ).concat(dir.as_str()),
            DocusaurusError::CompileFailed(stderr) => String::from_str(
                "cargo build failed: ",
            ).concat(stderr.as_str()),
            DocusaurusError::DylibLoad(m) => String::from_str("failed to load dylib: ").concat(
                m.as_str(),
            ),
            DocusaurusError::ConfigJson(m) => String::from_str(
                "config() symbol returned invalid JSON: ",
            ).concat(m.as_str()),
            DocusaurusError::DocusaurusBinNotFound => String::from_str(
                "docusaurus not found in PATH \u{2014} install @docusaurus/core and ensure its bin directory is on PATH",
            ),
            DocusaurusError::AddonNotFound => String::from_str("docusau-rs addon not found"),
            DocusaurusError::Io(_, m) => String::from_str("IO error: ").concat(m.as_str()),
            DocusaurusError::CommandFailed(status) => String::from_str(
                "docusaurus command failed with status ",
            ).concat(decimal_i32(*status).as_str()),
        }
    }
}

} // verus!
