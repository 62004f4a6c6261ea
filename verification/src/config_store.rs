//! The external config store: a line-oriented text file that carries an
//! `Authorization: Bearer <token>` line among lines the core does not
//! interpret.
//!
//! The store offers two operations: rewrite every authorization line to a
//! new token, preserving its indentation and every other line; and read the
//! token of the first authorization line. Reading and writing the file
//! itself happens outside the library; these functions transform the
//! file's text.

use vstd::prelude::*;

use crate::text::char_is_ws;
use crate::text::contains_at;
use crate::text::contains_sub;
use crate::text::find_sub_from;
use crate::text::is_ws_char;
use crate::text::lemma_ws_prefix;
use crate::text::spec_trim;
use crate::text::str_contains;
use crate::text::trim_str;
use crate::text::ws_prefix;
use crate::text::ws_prefix_len;

verus! {

/// Index of the first line feed of `s`, or -1 when there is none.
pub open spec fn find_nl(s: Seq<char>) -> int
    decreases s.len(),
{
    if s.len() == 0 {
        -1
    } else if s[0] == '\n' {
        0
    } else {
        let r = find_nl(s.drop_first());
        if r == -1 {
            -1
        } else {
            1 + r
        }
    }
}

proof fn lemma_find_nl(s: Seq<char>)
    ensures
        -1 <= find_nl(s) < s.len(),
        find_nl(s) == -1 ==> forall|j: int| 0 <= j < s.len() ==> s[j] != '\n',
        find_nl(s) >= 0 ==> s[find_nl(s)] == '\n',
        find_nl(s) >= 0 ==> forall|j: int| 0 <= j < find_nl(s) ==> s[j] != '\n',
    decreases s.len(),
{
    if s.len() == 0 {
    } else if s[0] == '\n' {
    } else {
        lemma_find_nl(s.drop_first());
        assert(forall|j: int| 1 <= j < s.len() ==> s.drop_first()[j - 1] == s[j]);
    }
}

proof fn lemma_find_nl_exact(s: Seq<char>, i: int)
    requires
        0 <= i < s.len(),
        s[i] == '\n',
        forall|j: int| 0 <= j < i ==> s[j] != '\n',
    ensures
        find_nl(s) == i,
    decreases s.len(),
{
    if i == 0 {
    } else {
        assert(forall|j: int| 0 <= j < s.len() - 1 ==> s.drop_first()[j] == s[j + 1]);
        lemma_find_nl_exact(s.drop_first(), i - 1);
    }
}

proof fn lemma_find_nl_absent(s: Seq<char>)
    requires
        forall|j: int| 0 <= j < s.len() ==> s[j] != '\n',
    ensures
        find_nl(s) == -1,
{
    lemma_find_nl(s);
    if find_nl(s) >= 0 {
        assert(s[find_nl(s)] == '\n');
    }
}

/// A line as `str::lines` yields it: without the carriage return that
/// preceded its line feed.
pub open spec fn strip_cr(l: Seq<char>) -> Seq<char> {
    if l.len() > 0 && l.last() == '\r' {
        l.drop_last()
    } else {
        l
    }
}

/// The lines of `s`: split at each line feed, each line stripped of a
/// carriage return before the split point, and no final empty line after a
/// trailing line feed.
pub open spec fn spec_lines(s: Seq<char>) -> Seq<Seq<char>>
    decreases s.len(),
{
    if s.len() == 0 {
        Seq::empty()
    } else {
        let i = find_nl(s);
        if 0 <= i && i < s.len() {
            seq![strip_cr(s.take(i))] + spec_lines(s.skip(i + 1))
        } else {
            seq![s]
        }
    }
}

/// The lines joined back with a single line feed between them.
pub open spec fn join_nl(ls: Seq<Seq<char>>) -> Seq<char>
    decreases ls.len(),
{
    if ls.len() == 0 {
        Seq::empty()
    } else if ls.len() == 1 {
        ls[0]
    } else {
        join_nl(ls.drop_last()) + seq!['\n'] + ls.last()
    }
}

/// Splits text into its lines.
pub fn split_lines(s: &str) -> (r: Vec<String>)
    ensures
        r.deep_view() == spec_lines(s@),
{
    proof {
        reveal_strlit("\n");
    }
    let n = s.unicode_len();
    let mut out: Vec<String> = Vec::new();
    let mut pos: usize = 0;
    proof {
        assert(s@.skip(0) =~= s@);
    }
    while pos < n
        invariant
            n == s@.len(),
            0 <= pos <= n,
            "\n"@.len() == 1 && "\n"@[0] == '\n',
            spec_lines(s@) == out.deep_view() + spec_lines(s@.skip(pos as int)),
        decreases n - pos,
    {
        let ghost rest = s@.skip(pos as int);
        let nl = find_sub_from(s, "\n", pos);
        match nl {
            Some(q) => {
                proof {
                    assert(s@[q as int] == '\n');
                    assert forall|j: int| 0 <= j < q - pos implies rest[j] != '\n' by {
                        assert(rest[j] == s@[pos + j]);
                        assert(!contains_at(s@, pos + j, "\n"@));
                    }
                    assert(rest[q - pos] == s@[q as int]);
                    lemma_find_nl_exact(rest, q - pos);
                }
                let line = if q > pos && char_at_is_cr(s, q - 1) {
                    s.substring_char(pos, q - 1)
                } else {
                    s.substring_char(pos, q)
                };
                let owned = line.to_owned();
                proof {
                    assert(rest.take(q - pos) =~= s@.subrange(pos as int, q as int));
                    if q > pos && s@[q - 1] == '\r' {
                        assert(rest.take(q - pos).last() == '\r');
                        assert(owned@ =~= strip_cr(rest.take(q - pos)));
                    } else {
                        assert(owned@ =~= strip_cr(rest.take(q - pos)));
                    }
                }
                let ghost prev = out.deep_view();
                out.push(owned);
                proof {
                    assert(spec_lines(rest) == seq![strip_cr(rest.take(q - pos))] + spec_lines(
                        rest.skip(q - pos + 1),
                    ));
                    assert(rest.skip(q - pos + 1) =~= s@.skip(q + 1));
                    assert(out.deep_view() =~= prev.push(strip_cr(rest.take(q - pos))));
                    assert(prev + spec_lines(rest) =~= out.deep_view() + spec_lines(
                        s@.skip(q + 1),
                    ));
                }
                pos = q + 1;
            },
            None => {
                proof {
                    assert forall|j: int| 0 <= j < rest.len() implies rest[j] != '\n' by {
                        assert(rest[j] == s@[pos + j]);
                        assert(!contains_at(s@, pos + j, "\n"@));
                    }
                    lemma_find_nl_absent(rest);
                    assert(spec_lines(rest) == seq![rest]);
                }
                let line = s.substring_char(pos, n);
                let owned = line.to_owned();
                proof {
                    assert(owned@ =~= rest);
                }
                let ghost prev = out.deep_view();
                out.push(owned);
                proof {
                    assert(out.deep_view() =~= prev.push(rest));
                    assert(s@.skip(n as int) =~= Seq::<char>::empty());
                    assert(prev + spec_lines(rest) =~= out.deep_view() + spec_lines(
                        s@.skip(n as int),
                    ));
                }
                pos = n;
            },
        }
    }
    proof {
        assert(s@.skip(n as int) =~= Seq::<char>::empty());
        assert(out.deep_view() + spec_lines(s@.skip(n as int)) =~= out.deep_view());
    }
    out
}

/// Handle on the external config file: the path the store operates on.
pub struct ConfigManager {
    pub config_path: String,
}

impl ConfigManager {
    /// Builds a handle for the config file at `config_path`.
    pub fn new(config_path: String) -> (r: ConfigManager)
        ensures
            r.config_path@ == config_path@,
    {
        ConfigManager { config_path }
    }
}

/// What rewriting does to one line: a line carrying the authorization
/// marker becomes its own indentation followed by the marker and the new
/// token; every other line stays as it is.
pub open spec fn spec_rewrite_line(l: Seq<char>, token: Seq<char>) -> Seq<char> {
    if contains_sub(l, "Authorization: Bearer"@) {
        l.take(ws_prefix_len(l)) + "Authorization: Bearer "@ + token
    } else {
        l
    }
}

/// The whole file after a token rewrite: every line rewritten, joined back
/// with single line feeds.
pub open spec fn spec_rewrite_config(content: Seq<char>, token: Seq<char>) -> Seq<char> {
    join_nl(spec_lines(content).map_values(|l: Seq<char>| spec_rewrite_line(l, token)))
}

/// Rewrites one line.
fn rewrite_line(line: &str, token: &str) -> (r: String)
    ensures
        r@ == spec_rewrite_line(line@, token@),
{
    if str_contains(line, "Authorization: Bearer") {
        let p = ws_prefix(line);
        proof {
            lemma_ws_prefix(line@);
        }
        let indent = line.substring_char(0, p);
        let mut out = indent.to_owned();
        out.append("Authorization: Bearer ");
        out.append(token);
        proof {
            assert(out@ =~= spec_rewrite_line(line@, token@));
        }
        out
    } else {
        line.to_owned()
    }
}

/// Rewrites every authorization line of the config text to carry
/// `new_token`, preserving each line's indentation and every other line,
/// and joining lines back with single line feeds.
pub fn rewrite_auth_token(content: &str, new_token: &str) -> (r: String)
    ensures
        r@ == spec_rewrite_config(content@, new_token@),
{
    let lines = split_lines(content);
    let ghost mapped = spec_lines(content@).map_values(
        |l: Seq<char>| spec_rewrite_line(l, new_token@),
    );
    let n = lines.len();
    let mut out: Vec<String> = Vec::new();
    let mut i: usize = 0;
    while i < n
        invariant
            n == lines@.len(),
            lines.deep_view() == spec_lines(content@),
            mapped == spec_lines(content@).map_values(
                |l: Seq<char>| spec_rewrite_line(l, new_token@),
            ),
            0 <= i <= n,
            out@.len() == i,
            forall|k: int| 0 <= k < i ==> out@[k]@ == mapped[k],
        decreases n - i,
    {
        proof {
            assert(lines.deep_view()[i as int] == lines@[i as int]@);
        }
        let rewritten = rewrite_line(lines[i].as_str(), new_token);
        out.push(rewritten);
        i = i + 1;
    }
    let joined = join_lines(&out);
    proof {
        assert(out.deep_view() =~= mapped);
    }
    joined
}

/// Index of the first occurrence of `pat` in `s`, or -1 when there is
/// none.
pub open spec fn first_at(s: Seq<char>, pat: Seq<char>) -> int
    decreases s.len(),
{
    if contains_at(s, 0, pat) {
        0
    } else if s.len() == 0 {
        -1
    } else {
        let r = first_at(s.drop_first(), pat);
        if r == -1 {
            -1
        } else {
            1 + r
        }
    }
}

/// An occurrence one step into the sequence is an occurrence one position
/// later in the whole.
proof fn lemma_shift_first(s: Seq<char>, pat: Seq<char>)
    requires
        s.len() > 0,
    ensures
        forall|j: int|
            0 <= j ==> (contains_at(s.drop_first(), j, pat) <==> contains_at(s, j + 1, pat)),
{
    assert forall|j: int| 0 <= j implies (contains_at(s.drop_first(), j, pat) <==> contains_at(
        s,
        j + 1,
        pat,
    )) by {
        if contains_at(s.drop_first(), j, pat) {
            assert forall|k: int| 0 <= k < pat.len() implies s[j + 1 + k] == pat[k] by {
                assert(s.drop_first()[j + k] == pat[k]);
            }
            assert(contains_at(s, j + 1, pat));
        }
        if contains_at(s, j + 1, pat) {
            assert forall|k: int| 0 <= k < pat.len() implies s.drop_first()[j + k] == pat[k] by {
                assert(s[j + 1 + k] == pat[k]);
            }
            assert(contains_at(s.drop_first(), j, pat));
        }
    }
}

/// An occurrence within `s.skip(e)` is an occurrence `e` later in `s`.
proof fn lemma_shift_skip(s: Seq<char>, e: int, pat: Seq<char>)
    requires
        0 <= e <= s.len(),
    ensures
        forall|j: int| 0 <= j ==> (contains_at(s.skip(e), j, pat) <==> contains_at(s, e + j, pat)),
{
    assert forall|j: int| 0 <= j implies (contains_at(s.skip(e), j, pat) <==> contains_at(
        s,
        e + j,
        pat,
    )) by {
        if contains_at(s.skip(e), j, pat) {
            assert forall|k: int| 0 <= k < pat.len() implies s[e + j + k] == pat[k] by {
                assert(s.skip(e)[j + k] == pat[k]);
            }
            assert(contains_at(s, e + j, pat));
        }
        if contains_at(s, e + j, pat) {
            assert forall|k: int| 0 <= k < pat.len() implies s.skip(e)[j + k] == pat[k] by {
                assert(s[e + j + k] == pat[k]);
            }
            assert(contains_at(s.skip(e), j, pat));
        }
    }
}

/// A position carrying the pattern, with no earlier occurrence, is what
/// `first_at` finds.
proof fn lemma_first_at_exact(s: Seq<char>, pat: Seq<char>, i: int)
    requires
        contains_at(s, i, pat),
        forall|j: int| 0 <= j < i ==> !contains_at(s, j, pat),
    ensures
        first_at(s, pat) == i,
    decreases s.len(),
{
    if i == 0 {
    } else {
        assert(i + pat.len() <= s.len());
        lemma_shift_first(s, pat);
        lemma_first_at_exact(s.drop_first(), pat, i - 1);
    }
}

/// Without an occurrence anywhere, `first_at` finds nothing.
proof fn lemma_first_at_absent(s: Seq<char>, pat: Seq<char>)
    requires
        !contains_sub(s, pat),
    ensures
        first_at(s, pat) == -1,
    decreases s.len(),
{
    if s.len() == 0 {
    } else {
        lemma_shift_first(s, pat);
        assert forall|j: int| 0 <= j implies !contains_at(s.drop_first(), j, pat) by {
            assert(!contains_at(s, j + 1, pat));
        }
        if contains_sub(s.drop_first(), pat) {
            let j = choose|j: int| contains_at(s.drop_first(), j, pat);
            assert(0 <= j);
        }
        lemma_first_at_absent(s.drop_first(), pat);
    }
}

/// The token text of a line, the way the store reads it: the text between
/// the first `Bearer ` and the next `Bearer ` (or the end of the line),
/// trimmed of whitespace. A line without `Bearer ` carries no token.
pub open spec fn spec_token_after_bearer(l: Seq<char>) -> Option<Seq<char>> {
    if !contains_sub(l, "Bearer "@) {
        None
    } else {
        let e = first_at(l, "Bearer "@) + "Bearer "@.len();
        let rest = l.skip(e);
        let seg = if contains_sub(rest, "Bearer "@) {
            rest.take(first_at(rest, "Bearer "@))
        } else {
            rest
        };
        Some(spec_trim(seg))
    }
}

/// Reads the token of one line.
fn token_after_bearer(l: &str) -> (r: Option<String>)
    ensures
        r.deep_view() == spec_token_after_bearer(l@),
{
    proof {
        reveal_strlit("Bearer ");
    }
    let n = l.unicode_len();
    match find_sub_from(l, "Bearer ", 0) {
        None => {
            proof {
                if contains_sub(l@, "Bearer "@) {
                    let j = choose|j: int| contains_at(l@, j, "Bearer "@);
                    assert(!contains_at(l@, j, "Bearer "@));
                }
            }
            None
        },
        Some(i1) => {
            proof {
                lemma_first_at_exact(l@, "Bearer "@, i1 as int);
            }
            let e = i1 + 7;
            proof {
                assert(e <= n);
                lemma_shift_skip(l@, e as int, "Bearer "@);
            }
            let ghost rest = l@.skip(e as int);
            let second = find_sub_from(l, "Bearer ", e);
            let seg_end = match second {
                Some(k) => {
                    proof {
                        assert(contains_at(rest, k - e, "Bearer "@));
                        assert forall|j: int| 0 <= j < k - e implies !contains_at(
                            rest,
                            j,
                            "Bearer "@,
                        ) by {
                            assert(!contains_at(l@, e + j, "Bearer "@));
                        }
                        lemma_first_at_exact(rest, "Bearer "@, k - e);
                    }
                    k
                },
                None => {
                    proof {
                        assert forall|j: int| 0 <= j implies !contains_at(
                            rest,
                            j,
                            "Bearer "@,
                        ) by {
                            assert(!contains_at(l@, e + j, "Bearer "@));
                        }
                        if contains_sub(rest, "Bearer "@) {
                            let j = choose|j: int| contains_at(rest, j, "Bearer "@);
                            assert(0 <= j);
                        }
                    }
                    n
                },
            };
            let seg = l.substring_char(e, seg_end);
            let t = trim_str(seg);
            proof {
                match second {
                    Some(k) => {
                        assert(seg@ =~= rest.take(k - e));
                    },
                    None => {
                        assert(seg@ =~= rest);
                    },
                }
            }
            Some(t)
        },
    }
}

/// What one line yields to a token read: a token only on a line that
/// carries the authorization marker.
pub open spec fn spec_line_token(l: Seq<char>) -> Option<Seq<char>> {
    if contains_sub(l, "Authorization: Bearer"@) {
        spec_token_after_bearer(l)
    } else {
        None
    }
}

/// The token the store reads from a file: that of the first line to yield
/// one.
pub open spec fn spec_first_token(ls: Seq<Seq<char>>) -> Option<Seq<char>>
    decreases ls.len(),
{
    if ls.len() == 0 {
        None
    } else if spec_line_token(ls[0]) is Some {
        spec_line_token(ls[0])
    } else {
        spec_first_token(ls.drop_first())
    }
}

/// The token the whole config text currently carries, if any.
pub open spec fn spec_extract_token(content: Seq<char>) -> Option<Seq<char>> {
    spec_first_token(spec_lines(content))
}

/// Reads the current authorization token from the config text: the token
/// of the first authorization line that carries one.
pub fn extract_auth_token(content: &str) -> (r: Option<String>)
    ensures
        r.deep_view() == spec_extract_token(content@),
{
    let lines = split_lines(content);
    let ghost ld = lines.deep_view();
    let n = lines.len();
    let mut i: usize = 0;
    proof {
        assert(ld.skip(0) =~= ld);
    }
    while i < n
        invariant
            n == lines@.len(),
            ld == lines.deep_view(),
            ld == spec_lines(content@),
            0 <= i <= n,
            spec_first_token(ld) == spec_first_token(ld.skip(i as int)),
        decreases n - i,
    {
        proof {
            assert(ld.skip(i as int)[0] == ld[i as int]);
            assert(ld.skip(i as int).drop_first() =~= ld.skip(i + 1));
            assert(ld[i as int] == lines@[i as int]@);
        }
        if str_contains(lines[i].as_str(), "Authorization: Bearer") {
            let t = token_after_bearer(lines[i].as_str());
            match t {
                Some(tok) => {
                    return Some(tok);
                },
                None => {},
            }
        }
        i = i + 1;
    }
    proof {
        assert(ld.skip(n as int) =~= Seq::<Seq<char>>::empty());
    }
    None
}

/// Whether the character at `i` is a carriage return.
fn char_at_is_cr(s: &str, i: usize) -> (r: bool)
    requires
        i < s@.len(),
    ensures
        r == (s@[i as int] == '\r'),
{
    s.get_char(i) == '\r'
}

/// Joins lines with a single line feed between them.
pub fn join_lines(ls: &Vec<String>) -> (r: String)
    ensures
        r@ == join_nl(ls.deep_view()),
{
    proof {
        reveal_strlit("\n");
    }
    let n = ls.len();
    let mut acc = String::new();
    let mut i: usize = 0;
    while i < n
        invariant
            n == ls@.len(),
            0 <= i <= n,
            "\n"@.len() == 1 && "\n"@[0] == '\n',
            acc@ == join_nl(ls.deep_view().take(i as int)),
        decreases n - i,
    {
        proof {
            assert(ls.deep_view().take(i + 1).drop_last() =~= ls.deep_view().take(i as int));
            assert(ls.deep_view().take(i + 1).last() == ls@[i as int]@);
        }
        if i > 0 {
            acc.append("\n");
            proof {
                assert("\n"@ =~= seq!['\n']);
            }
        }
        acc.append(ls[i].as_str());
        proof {
            if i == 0 {
                assert(acc@ =~= join_nl(ls.deep_view().take(1)));
            }
        }
        i = i + 1;
    }
    proof {
        assert(ls.deep_view().take(n as int) =~= ls.deep_view());
    }
    acc
}

} // verus!
