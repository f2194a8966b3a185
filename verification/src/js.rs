use vstd::prelude::*;

verus! {

/// The two kinds of JavaScript string literal that the library writes text into.
#[derive(Clone, Copy, Debug, PartialEq, Eq, Structural)]
pub enum LiteralKind {
    /// A `'...'` literal.
    SingleQuoted,
    /// A `` `...` `` template literal.
    Template,
}

/// What the character `c` becomes inside a literal of `kind`, seen on its own.
pub open spec fn escape_piece(kind: LiteralKind, c: char) -> Seq<char> {
    match kind {
        LiteralKind::SingleQuoted => {
            if c == '\\' {
                seq!['\\', '\\']
            } else if c == '\'' {
                seq!['\\', '\'']
            } else if c == '\n' {
                seq!['\\', 'n']
            } else if c == '\r' {
                seq!['\\', 'r']
            } else {
                seq![c]
            }
        },
        LiteralKind::Template => {
            if c == '\\' {
                seq!['\\', '\\']
            } else if c == '`' {
                seq!['\\', '`']
            } else {
                seq![c]
            }
        },
    }
}

/// What the character at index `i` of `s` becomes inside a literal of
/// `kind`: its own piece, except that in a template literal a `$` followed
/// by `{` becomes `\$` (so that no substitution starts there).
pub open spec fn piece_at(kind: LiteralKind, s: Seq<char>, i: int) -> Seq<char> {
    if kind == LiteralKind::Template && s[i] == '$' && i + 1 < s.len() && s[i + 1] == '{' {
        seq!['\\', '$']
    } else {
        escape_piece(kind, s[i])
    }
}

/// The escaped text: each character replaced by its piece, in order.
pub open spec fn escaped(kind: LiteralKind, s: Seq<char>) -> Seq<char>
    decreases s.len(),
{
    if s.len() == 0 {
        Seq::empty()
    } else {
        piece_at(kind, s, 0) + escaped(kind, s.drop_first())
    }
}

/// The pieces of the first `n` characters of `s`, in order.
pub open spec fn escaped_prefix(kind: LiteralKind, s: Seq<char>, n: int) -> Seq<char>
    decreases n,
{
    if n <= 0 {
        Seq::empty()
    } else {
        escaped_prefix(kind, s, n - 1) + piece_at(kind, s, n - 1)
    }
}

proof fn lemma_split(kind: LiteralKind, s: Seq<char>, n: int)
    requires
        0 <= n <= s.len(),
    ensures
        escaped(kind, s) == escaped_prefix(kind, s, n) + escaped(kind, s.skip(n)),
    decreases n,
{
    if n == 0 {
        assert(s.skip(0) =~= s);
        assert(Seq::<char>::empty() + escaped(kind, s) =~= escaped(kind, s));
    } else {
        lemma_split(kind, s, n - 1);
        let t = s.skip(n - 1);
        assert(t.len() > 0);
        assert(t.drop_first() =~= s.skip(n));
        assert(t[0] == s[n - 1]);
        if n < s.len() {
            assert(t[1] == s[n]);
        }
        assert(piece_at(kind, t, 0) == piece_at(kind, s, n - 1));
        assert(escaped(kind, t) == piece_at(kind, t, 0) + escaped(kind, s.skip(n)));
        assert(escaped_prefix(kind, s, n - 1) + escaped(kind, t) =~= escaped_prefix(kind, s, n)
            + escaped(kind, s.skip(n)));
    }
}

proof fn lemma_prefix_run(kind: LiteralKind, s: Seq<char>, a: int, b: int)
    requires
        0 <= a <= b <= s.len(),
        forall|j: int| a <= j < b ==> #[trigger] piece_at(kind, s, j) == seq![s[j]],
    ensures
        escaped_prefix(kind, s, b) == escaped_prefix(kind, s, a) + s.subrange(a, b),
    decreases b - a,
{
    if b > a {
        lemma_prefix_run(kind, s, a, b - 1);
        assert(piece_at(kind, s, b - 1) == seq![s[b - 1]]);
        assert(escaped_prefix(kind, s, a) + s.subrange(a, b - 1) + seq![s[b - 1]]
            =~= escaped_prefix(kind, s, a) + s.subrange(a, b));
    } else {
        assert(s.subrange(a, b) =~= Seq::<char>::empty());
        assert(escaped_prefix(kind, s, a) + Seq::<char>::empty() =~= escaped_prefix(kind, s, a));
    }
}

fn piece_text(kind: LiteralKind, c: char) -> (r: Option<&'static str>)
    ensures
        match r {
            Some(t) => t@ == escape_piece(kind, c) && t@.len() == 2 && c != '$' && c != '{',
            None => escape_piece(kind, c) == seq![c],
        },
{
    proof {
        reveal_strlit("\\\\");
        reveal_strlit("\\'");
        reveal_strlit("\\n");
        reveal_strlit("\\r");
        reveal_strlit("\\`");
    }
    match kind {
        LiteralKind::SingleQuoted => {
            if c == '\\' {
                Some("\\\\")
            } else if c == '\'' {
                Some("\\'")
            } else if c == '\n' {
                Some("\\n")
            } else if c == '\r' {
                Some("\\r")
            } else {
                None
            }
        },
        LiteralKind::Template => {
            if c == '\\' {
                Some("\\\\")
            } else if c == '`' {
                Some("\\`")
            } else {
                None
            }
        },
    }
}

/// Escapes `s` for a JavaScript literal of `kind`.
pub fn escape_for(kind: LiteralKind, s: &str) -> (r: String)
    ensures
        r@ == escaped(kind, s@),
{
    proof {
        reveal_strlit("\\$");
    }
    let mut out = String::new();
    let n = s.unicode_len();
    // `out` holds the pieces of s[..start]; s[start..i] is copied verbatim later.
    let mut start: usize = 0;
    let mut i: usize = 0;
    let mut after_dollar = false;
    for c in it: s.chars()
        invariant
            n == s@.len(),
            it.seq() == s@,
            i == it.index(),
            start <= i <= n,
            after_dollar == (i > 0 && s@[i - 1] == '$'),
            out@ == escaped_prefix(kind, s@, start as int),
            forall|j: int| start <= j < i ==> escape_piece(kind, #[trigger] s@[j]) == seq![s@[j]],
            forall|j: int|
                start <= j && j + 1 < i ==> #[trigger] piece_at(kind, s@, j) == seq![s@[j]],
    {
        assert(c == s@[i as int]);
        if kind == LiteralKind::Template && c == '{' && start < i && after_dollar {
            let run = s.substring_char(start, i - 1);
            proof {
                reveal_strlit("\\$");
                lemma_prefix_run(kind, s@, start as int, i - 1);
                assert(piece_at(kind, s@, i - 1) == seq!['\\', '$']);
                assert(escaped_prefix(kind, s@, i as int) =~= escaped_prefix(kind, s@, start as int)
                    + s@.subrange(start as int, i - 1) + "\\$"@);
            }
            out.append(run);
            out.append("\\$");
            start = i;
        } else {
            match piece_text(kind, c) {
                Some(t) => {
                    let run = s.substring_char(start, i);
                    proof {
                        assert forall|j: int| start <= j < i implies #[trigger] piece_at(kind, s@, j)
                            == seq![s@[j]] by {
                            if j + 1 >= i {
                                assert(escape_piece(kind, s@[j]) == seq![s@[j]]);
                            }
                        }
                        lemma_prefix_run(kind, s@, start as int, i as int);
                        assert(piece_at(kind, s@, i as int) == t@);
                        assert(escaped_prefix(kind, s@, i + 1) =~= escaped_prefix(
                            kind,
                            s@,
                            start as int,
                        ) + s@.subrange(start as int, i as int) + t@);
                    }
                    out.append(run);
                    out.append(t);
                    start = i + 1;
                },
                None => {
                    proof {
                        assert forall|j: int| start <= j && j + 1 < i + 1 implies #[trigger] piece_at(
                            kind,
                            s@,
                            j,
                        ) == seq![s@[j]] by {
                            if j + 1 >= i {
                                assert(escape_piece(kind, s@[j]) == seq![s@[j]]);
                            }
                        }
                    }
                },
            }
        }
        after_dollar = c == '$';
        i = i + 1;
    }
    let run = s.substring_char(start, n);
    proof {
        assert forall|j: int| start <= j < n implies #[trigger] piece_at(kind, s@, j) == seq![s@[j]] by {
            if j + 1 >= n {
                assert(escape_piece(kind, s@[j]) == seq![s@[j]]);
            }
        }
        lemma_prefix_run(kind, s@, start as int, n as int);
        lemma_split(kind, s@, n as int);
        assert(s@.skip(n as int) =~= Seq::<char>::empty());
        assert(s@.subrange(start as int, n as int) =~= run@);
    }
    out.append(run);
    proof {
        assert(escaped_prefix(kind, s@, n as int) + Seq::<char>::empty() =~= escaped_prefix(kind, s@, n as int));
    }
    out
}

/// Escapes `s` for the inside of a single-quoted JavaScript string literal:
/// backslash, single quote, line feed and carriage return become `\\`, `\'`,
/// `\n` and `\r`; every other character stays as it is.
pub fn escape_js_string(s: &str) -> (r: String)
    ensures
        r@ == escaped(LiteralKind::SingleQuoted, s@),
{
    escape_for(LiteralKind::SingleQuoted, s)
}

/// The string value of the text between the quotes of a single-quoted
/// JavaScript string literal, for text whose escapes are among `\\`, `\'`,
/// `\n` and `\r`. `None` where such a literal would end early or be invalid
/// (a raw `'`, a raw line feed or carriage return, a lone trailing backslash),
/// and where the text holds any other escape, which this model leaves out.
pub open spec fn single_quoted_value(t: Seq<char>) -> Option<Seq<char>>
    decreases t.len(),
{
    if t.len() == 0 {
        Some(Seq::empty())
    } else if t[0] == '\\' {
        if t.len() < 2 {
            None
        } else {
            let d = t[1];
            let decoded = if d == '\\' {
                Some('\\')
            } else if d == '\'' {
                Some('\'')
            } else if d == 'n' {
                Some('\n')
            } else if d == 'r' {
                Some('\r')
            } else {
                None
            };
            match (decoded, single_quoted_value(t.skip(2))) {
                (Some(c), Some(rest)) => Some(seq![c] + rest),
                _ => None,
            }
        }
    } else if t[0] == '\'' || t[0] == '\n' || t[0] == '\r' {
        None
    } else {
        match single_quoted_value(t.drop_first()) {
            Some(rest) => Some(seq![t[0]] + rest),
            None => None,
        }
    }
}

/// The cooked string value of the text between the backticks of a JavaScript
/// template literal, for text whose escapes are among `\\`, `` \` ``, `\$`
/// and `\r`. `None` where the literal would end early (a raw backtick), would
/// start a substitution (`${`), holds a lone trailing backslash, holds a raw
/// carriage return (which JavaScript turns into a line feed), or holds any
/// other escape, which this model leaves out.
pub open spec fn template_value(t: Seq<char>) -> Option<Seq<char>>
    decreases t.len(),
{
    if t.len() == 0 {
        Some(Seq::empty())
    } else if t[0] == '\\' {
        if t.len() < 2 {
            None
        } else {
            let d = t[1];
            let decoded = if d == '\\' || d == '`' || d == '$' {
                Some(d)
            } else if d == 'r' {
                Some('\r')
            } else {
                None
            };
            match (decoded, template_value(t.skip(2))) {
                (Some(c), Some(rest)) => Some(seq![c] + rest),
                _ => None,
            }
        }
    } else if t[0] == '`' || t[0] == '\r' || (t[0] == '$' && t.len() >= 2 && t[1] == '{') {
        None
    } else {
        match template_value(t.drop_first()) {
            Some(rest) => Some(seq![t[0]] + rest),
            None => None,
        }
    }
}

/// A single-quoted literal whose body is `escape_js_string(s)` has the value
/// `s`, whatever `s` holds: the escaping can neither end the literal early nor
/// change its value.
pub proof fn lemma_single_quoted_round_trip(s: Seq<char>)
    ensures
        single_quoted_value(escaped(LiteralKind::SingleQuoted, s)) == Some(s),
    decreases s.len(),
{
    if s.len() > 0 {
        let k = LiteralKind::SingleQuoted;
        let rest = s.drop_first();
        lemma_single_quoted_round_trip(rest);
        let t = escaped(k, s);
        let p = piece_at(k, s, 0);
        assert(t == p + escaped(k, rest));
        if p.len() == 2 {
            assert(t.skip(2) =~= escaped(k, rest));
        } else {
            assert(t.drop_first() =~= escaped(k, rest));
        }
        assert(seq![s[0]] + rest =~= s);
    }
}

/// A template literal whose body is the template escaping of `s` has the
/// cooked value `s`, for every `s` without a carriage return (which a
/// template literal turns into a line feed, and which serde_json never writes
/// raw): the escaping can neither end the literal early, start a
/// substitution, nor change its value.
pub proof fn lemma_template_round_trip(s: Seq<char>)
    requires
        !s.contains('\r'),
    ensures
        template_value(escaped(LiteralKind::Template, s)) == Some(s),
    decreases s.len(),
{
    if s.len() > 0 {
        let k = LiteralKind::Template;
        let rest = s.drop_first();
        assert(!rest.contains('\r')) by {
            if rest.contains('\r') {
                let i = choose|i: int| 0 <= i < rest.len() && rest[i] == '\r';
                assert(s[i + 1] == rest[i]);
            }
        }
        assert(s[0] != '\r') by {
            assert(s[0] == s[0]);
        }
        lemma_template_round_trip(rest);
        let t = escaped(k, s);
        let p = piece_at(k, s, 0);
        assert(t == p + escaped(k, rest));
        if p.len() == 2 {
            assert(t.skip(2) =~= escaped(k, rest));
        } else {
            assert(t.drop_first() =~= escaped(k, rest));
            if s[0] == '$' && t.len() >= 2 {
                assert(rest.len() > 0);
                assert(rest[0] == s[1]);
                assert(s[1] != '{');
                assert(escaped(k, rest) == piece_at(k, rest, 0) + escaped(k, rest.drop_first()));
                assert(t[1] == piece_at(k, rest, 0)[0]);
            }
        }
        assert(seq![s[0]] + rest =~= s);
    }
}

} // verus!
