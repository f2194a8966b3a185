use vstd::prelude::*;

verus! {

/// What `std::path::Path::join` gives for `base` and `part` on the platform
/// the crate is built for.
pub uninterp spec fn joined_path(base: Seq<char>, part: Seq<char>) -> Seq<char>;

/// What `std::path::Path::parent` gives for `p`: `p` without its final
/// component, or `None` when `p` ends in a root or prefix or is empty.
pub uninterp spec fn parent_path(p: Seq<char>) -> Option<Seq<char>>;

/// Calls `std::path::Path::join`. Trusted: the result is `joined_path` of the
/// two arguments (joining two UTF-8 texts gives UTF-8, so the conversion back
/// to `String` loses nothing).
#[verifier::external_body]
pub(crate) fn path_join(base: &str, part: &str) -> (r: String)
    ensures
        r@ == joined_path(base@, part@),
{
    std::path::Path::new(base).join(part).to_string_lossy().into_owned()
}

/// Calls `std::path::Path::parent`. Trusted: the result is `parent_path` of
/// `p`, and a parent, being `p` less its final component, is shorter than `p`.
#[verifier::external_body]
pub(crate) fn path_parent(p: &str) -> (r: Option<String>)
    ensures
        match r {
            Some(q) => parent_path(p@) == Some(q@) && q@.len() < p@.len(),
            None => parent_path(p@) is None,
        },
{
    match std::path::Path::new(p).parent() {
        Some(q) => Some(q.to_string_lossy().into_owned()),
        None => None,
    }
}

/// Calls `std::path::Path::exists`. What it returns depends on the disk at
/// the moment of the call, so nothing is stated of it.
#[verifier::external_body]
pub(crate) fn path_exists(p: &str) -> (r: bool) {
    std::path::Path::new(p).exists()
}

/// Calls `which::which_in` on the path `p` (which holds a separator, so
/// `which` looks at that one path, taken from the working directory when it
/// is relative): `true` when it is an existing file that may be executed.
/// What it returns depends on the disk at the moment of the call, so nothing
/// is stated of it.
#[verifier::external_body]
pub(crate) fn path_is_executable(p: &str) -> (r: bool) {
    which::which_in(p, None::<&str>, ".").is_ok()
}

/// The `k`-th ancestor of `p`: `p` itself, its parent, its parent's parent,
/// and so on; `None` once the chain of parents has ended.
pub open spec fn ancestor(p: Seq<char>, k: nat) -> Option<Seq<char>>
    decreases k,
{
    if k == 0 {
        Some(p)
    } else {
        match ancestor(p, (k - 1) as nat) {
            Some(q) => parent_path(q),
            None => None,
        }
    }
}

/// The texts of `parts`.
pub open spec fn part_views(parts: Seq<&str>) -> Seq<Seq<char>> {
    parts.map_values(|p: &str| p@)
}

/// `dir` joined with each of `parts` in turn.
pub open spec fn join_all(dir: Seq<char>, parts: Seq<Seq<char>>) -> Seq<char>
    decreases parts.len(),
{
    if parts.len() == 0 {
        dir
    } else {
        joined_path(join_all(dir, parts.drop_last()), parts.last())
    }
}

/// What an upward search from `start` for `parts` returns when the probes
/// of the ancestors `start`, its parent, ... answered `answers`, in order: the
/// search goes up while a probe answers no and a parent exists; it returns
/// `parts` below the first ancestor whose probe answered yes, or `None` when
/// the probe of an ancestor with no parent answered no. `answers` holds
/// exactly the probes made.
pub open spec fn search_record(
    start: Seq<char>,
    parts: Seq<Seq<char>>,
    answers: Seq<bool>,
    r: Option<Seq<char>>,
) -> bool {
    &&& answers.len() >= 1
    &&& forall|k: int| 0 <= k < answers.len() ==> (#[trigger] ancestor(start, k as nat)) is Some
    &&& forall|k: int| 0 <= k < answers.len() - 1 ==> !#[trigger] answers[k]
    &&& ({
        let last = (answers.len() - 1) as nat;
        let d = ancestor(start, last)->0;
        if answers[last as int] {
            r == Some(join_all(d, parts))
        } else {
            parent_path(d) is None && r is None
        }
    })
}

/// An optional text, as an optional sequence of characters.
pub open spec fn text_of(r: Option<String>) -> Option<Seq<char>> {
    match r {
        Some(f) => Some(f@),
        None => None,
    }
}

/// What an upward search does after probing below `dir`.
pub enum SearchStep {
    /// The probe answered yes: the search ends with this path.
    Found(String),
    /// The probe answered no: the search goes on from this parent.
    Up(String),
    /// The probe answered no and `dir` has no parent: the search fails.
    Fail,
}

/// One step of an upward search for `parts`: `present` is the answer of the
/// probe of `parts` below `dir`.
pub fn search_step(dir: &str, parts: &Vec<&str>, present: bool) -> (r: SearchStep)
    ensures
        present ==> (r matches SearchStep::Found(c) && c@ == join_all(
            dir@,
            part_views(parts@),
        )),
        !present ==> match parent_path(dir@) {
            Some(q) => r matches SearchStep::Up(u) && u@ == q,
            None => r is Fail,
        },
        r matches SearchStep::Up(u) ==> u@.len() < dir@.len(),
{
    if present {
        SearchStep::Found(join_parts(dir, parts))
    } else {
        match path_parent(dir) {
            Some(q) => SearchStep::Up(q),
            None => SearchStep::Fail,
        }
    }
}

/// Every answer in `answers` is what `probe` returned when asked about the
/// candidate of its turn, `asked[k]`: `parts` below the `k`-th ancestor of `start`.
pub open spec fn answers_from_probe<F: Fn(String) -> bool>(
    probe: F,
    start: Seq<char>,
    parts: Seq<Seq<char>>,
    asked: Seq<String>,
    answers: Seq<bool>,
) -> bool {
    &&& asked.len() == answers.len()
    &&& forall|k: int|
        0 <= k < answers.len() ==> (#[trigger] asked[k])@ == join_all(
            ancestor(start, k as nat)->0,
            parts,
        ) && probe.ensures((asked[k],), answers[k])
}

pub fn join_parts(dir: &str, parts: &Vec<&str>) -> (r: String)
    ensures
        r@ == join_all(dir@, part_views(parts@)),
{
    let ghost views = part_views(parts@);
    let mut acc = String::from_str(dir);
    let mut i: usize = 0;
    while i < parts.len()
        invariant
            i <= parts.len(),
            views == part_views(parts@),
            acc@ == join_all(dir@, views.subrange(0, i as int)),
        decreases parts.len() - i,
    {
        let next = path_join(acc.as_str(), parts[i]);
        proof {
            assert(views.subrange(0, i + 1).drop_last() =~= views.subrange(0, i as int));
        }
        acc = next;
        i = i + 1;
    }
    proof {
        assert(views.subrange(0, parts.len() as int) =~= views);
    }
    acc
}

/// Walks up from `start`, one parent at a time, asking `probe` about
/// `parts` below each directory, until a probe answers yes or a directory has
/// no parent. The answers come from the disk, so the result is stated for the
/// answers the probe gave, whatever they were: it follows `search_record`,
/// and each answer is the probe's answer about the candidate of its turn.
pub fn search_upward<F: Fn(String) -> bool>(start: &str, parts: &Vec<&str>, probe: F) -> (r: Option<
    String,
>)
    requires
        forall|p: String| probe.requires((p,)),
    ensures
        exists|answers: Seq<bool>, asked: Seq<String>|
            #[trigger] search_record(start@, part_views(parts@), answers, text_of(r))
                && #[trigger] answers_from_probe(probe, start@, part_views(parts@), asked, answers),
{
    let ghost views = part_views(parts@);
    let mut dir = String::from_str(start);
    let ghost mut answers: Seq<bool> = Seq::empty();
    let ghost mut asked: Seq<String> = Seq::empty();
    loop
        invariant
            views == part_views(parts@),
            ancestor(start@, answers.len()) == Some(dir@),
            forall|k: int| 0 <= k <= answers.len() ==> (#[trigger] ancestor(start@, k as nat)) is Some,
            forall|k: int| 0 <= k < answers.len() ==> !#[trigger] answers[k],
            forall|p: String| probe.requires((p,)),
            answers_from_probe(probe, start@, views, asked, answers),
        decreases dir@.len(),
    {
        let candidate = join_parts(dir.as_str(), parts);
        let ghost this_one = candidate;
        let present = probe(candidate);
        let ghost before = answers;
        let ghost asked_before = asked;
        proof {
            answers = answers.push(present);
            asked = asked.push(this_one);
            assert forall|k: int| 0 <= k < answers.len() implies (#[trigger] asked[k])@ == join_all(
                ancestor(start@, k as nat)->0,
                views,
            ) && probe.ensures((asked[k],), answers[k]) by {
                if k < before.len() {
                    assert(answers[k] == before[k]);
                    assert(asked[k] == asked_before[k]);
                }
            }
        }
        match search_step(dir.as_str(), parts, present) {
            SearchStep::Found(found) => {
                assert(search_record(start@, views, answers, Some(found@)));
                assert(answers_from_probe(probe, start@, views, asked, answers));
                return Some(found);
            },
            SearchStep::Up(parent) => {
                proof {
                    assert(ancestor(start@, answers.len()) == parent_path(dir@));
                    assert forall|k: int| 0 <= k < answers.len() implies !#[trigger] answers[k] by {
                        if k < before.len() {
                            assert(answers[k] == before[k]);
                        }
                    }
                }
                dir = parent;
            },
            SearchStep::Fail => {
                assert(search_record(start@, views, answers, None));
                assert(answers_from_probe(probe, start@, views, asked, answers));
                return None;
            },
        }
    }
}

} // verus!
