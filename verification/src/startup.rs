//! Launch at startup: reading and writing the command line that the Windows
//! `Run` registry entry holds for the tray.
use vstd::prelude::*;
use vstd::string::*;
use crate::text::{
    chars_of, is_white_space, lemma_trim_bounds_unique, trim_bounds, trim_range, trimmed, white_space,
};

verus! {

/// `i` is the position of the first `"` in `s`.
pub open spec fn first_quote(s: Seq<char>, i: int) -> bool {
    &&& 0 <= i < s.len()
    &&& s[i] == '"'
    &&& forall|k: int| 0 <= k < i ==> #[trigger] s[k] != '"'
}

/// `e` is where the first white-space separated word of `s` ends.
pub open spec fn first_word_end(s: Seq<char>, e: int) -> bool {
    &&& 0 <= e <= s.len()
    &&& forall|k: int| 0 <= k < e ==> !is_white_space(#[trigger] s[k])
    &&& e < s.len() ==> is_white_space(s[e])
}

/// The program path that a `Run` command line names: none for a blank line;
/// for a line that starts with `"`, what stands before the next `"` (none
/// when there is no closing quote); otherwise its first word.
pub open spec fn run_command_path(command: Seq<char>) -> Option<Seq<char>> {
    let t = trimmed(command);
    if t.len() == 0 {
        None
    } else if t[0] == '"' {
        let rest = t.drop_first();
        if exists|i: int| first_quote(rest, i) {
            let i = choose|i: int| first_quote(rest, i);
            Some(rest.take(i))
        } else {
            None
        }
    } else {
        let e = choose|e: int| first_word_end(t, e);
        Some(t.take(e))
    }
}

/// Reads the program path out of a `Run` command line.
pub fn parse_run_command_path(command: &str) -> (path: Option<String>)
    ensures
        match path {
            Some(p) => run_command_path(command@) == Some(p@),
            None => run_command_path(command@) is None,
        },
{
    let v = chars_of(command);
    let (a, b) = trim_range(&v);
    proof {
        lemma_trim_bounds_unique(command@, a as int, b as int);
    }
    let ghost t = command@.subrange(a as int, b as int);
    if a == b {
        return None;
    }
    let trimmed_cmd = command.substring_char(a, b);
    assert(trimmed_cmd@ == t);
    if v[a] == '"' {
        let ghost rest = t.drop_first();
        let mut i: usize = a + 1;
        while i < b && v[i] != '"'
            invariant
                a < i <= b,
                b <= v@.len(),
                v@ == command@,
                t == command@.subrange(a as int, b as int),
                rest == t.drop_first(),
                forall|k: int| 0 <= k < i - a - 1 ==> #[trigger] rest[k] != '"',
            decreases b - i,
        {
            assert(rest[i - a - 1] == v@[i as int]);
            i = i + 1;
        }
        if i == b {
            assert(!exists|j: int| first_quote(rest, j)) by {
                if exists|j: int| first_quote(rest, j) {
                    let j = choose|j: int| first_quote(rest, j);
                    assert(rest[j] != '"');
                }
            }
            return None;
        }
        let ghost q = (i - a - 1) as int;
        assert(rest[q] == v@[i as int]);
        assert(first_quote(rest, q));
        let ghost chosen = choose|j: int| first_quote(rest, j);
        assert(chosen == q) by {
            assert(first_quote(rest, chosen));
            if chosen < q {
                assert(rest[chosen] != '"');
            }
            if q < chosen {
                assert(rest[q] != '"');
            }
        }
        let p = command.substring_char(a + 1, i);
        assert(p@ =~= rest.take(q));
        Some(p.to_owned())
    } else {
        let mut e: usize = a;
        while e < b && !white_space(v[e])
            invariant
                a <= e <= b,
                b <= v@.len(),
                v@ == command@,
                t == command@.subrange(a as int, b as int),
                forall|k: int| 0 <= k < e - a ==> !is_white_space(#[trigger] t[k]),
            decreases b - e,
        {
            assert(t[e - a] == v@[e as int]);
            e = e + 1;
        }
        let ghost w = (e - a) as int;
        assert(w < t.len() ==> t[w] == v@[e as int]);
        assert(first_word_end(t, w));
        let ghost chosen = choose|j: int| first_word_end(t, j);
        assert(chosen == w) by {
            assert(first_word_end(t, chosen));
            if chosen < w {
                assert(!is_white_space(t[chosen]));
            }
            if w < chosen {
                assert(!is_white_space(t[w]));
            }
        }
        let p = command.substring_char(a, e);
        assert(p@ =~= t.take(w));
        Some(p.to_owned())
    }
}

/// `s` with every `"` doubled.
pub open spec fn doubled_quotes(s: Seq<char>) -> Seq<char>
    decreases s.len(),
{
    if s.len() == 0 {
        seq![]
    } else {
        doubled_quotes(s.drop_last()) + if s.last() == '"' {
            seq!['"', '"']
        } else {
            seq![s.last()]
        }
    }
}

/// The `Run` command line that starts the program at `exe`: the path in
/// double quotes, with the quotes inside it doubled.
pub open spec fn run_command_for(exe: Seq<char>) -> Seq<char> {
    seq!['"'] + doubled_quotes(exe) + seq!['"']
}

/// Builds the `Run` command line for the program at `exe`.
pub fn run_command_for_exe(exe: &str) -> (cmd: String)
    ensures
        cmd@ == run_command_for(exe@),
{
    let v = chars_of(exe);
    let mut out = "\"".to_owned();
    proof {
        reveal_strlit("\"");
    }
    let mut i: usize = 0;
    while i < v.len()
        invariant
            i <= v@.len(),
            v@ == exe@,
            out@ == seq!['"'] + doubled_quotes(exe@.take(i as int)),
        decreases v@.len() - i,
    {
        assert(exe@.take(i + 1).drop_last() =~= exe@.take(i as int));
        let piece = exe.substring_char(i, i + 1);
        assert(piece@ =~= seq![v@[i as int]]);
        out.append(piece);
        if v[i] == '"' {
            out.append(piece);
        }
        assert(out@ =~= seq!['"'] + doubled_quotes(exe@.take(i + 1)));
        i = i + 1;
    }
    assert(exe@.take(v@.len() as int) =~= exe@);
    out.append("\"");
    out
}

/// What the check of a configured program path found on disk.
pub struct ProbedPath {
    /// Whether the path names an existing file.
    pub exists: bool,
    /// The canonical form of the path, or why it has none.
    pub normalized: Result<String, String>,
}

/// Whether the `Run` entry starts this very program: it does when the path
/// it names exists and has the same canonical form as the program's own
/// path. `configured` is what was found for the path that
/// [`parse_run_command_path`] read out of the entry (`None` when it read
/// none); `current` is the canonical form of the program's own path.
pub fn run_value_matches_current_exe(configured: Option<ProbedPath>, current: Result<String, String>) -> (r:
    Result<bool, String>)
    ensures
        match configured {
            None => r == Ok::<bool, String>(false),
            Some(p) => if !p.exists {
                r == Ok::<bool, String>(false)
            } else {
                match (p.normalized, current) {
                    (Err(e), _) => r == Err::<bool, String>(e),
                    (Ok(_), Err(e)) => r == Err::<bool, String>(e),
                    (Ok(a), Ok(b)) => r == Ok::<bool, String>(a@ == b@),
                }
            },
        },
{
    match configured {
        None => Ok(false),
        Some(p) => {
            if !p.exists {
                return Ok(false);
            }
            match (p.normalized, current) {
                (Err(e), _) => Err(e),
                (Ok(_), Err(e)) => Err(e),
                (Ok(a), Ok(b)) => Ok(a == b),
            }
        },
    }
}

/// Whether launch at startup is on, where it is not supported: never.
pub fn is_enabled() -> (r: Result<bool, String>)
    ensures
        r == Ok::<bool, String>(false),
{
    Ok(false)
}

/// The message of a launch-at-startup request where it is not supported.
pub open spec fn unsupported_message() -> Seq<char> {
    "Launch at startup is only supported on Windows"@
}

/// Turning launch at startup on or off, where it is not supported: refused.
pub fn set_enabled(enabled: bool) -> (r: Result<bool, String>)
    ensures
        r matches Err(e) && e@ == unsupported_message(),
{
    Err("Launch at startup is only supported on Windows".to_owned())
}

/// Without quotes in it, a path comes out of quote doubling unchanged.
proof fn lemma_doubling_without_quotes(s: Seq<char>)
    requires
        forall|k: int| 0 <= k < s.len() ==> #[trigger] s[k] != '"',
    ensures
        doubled_quotes(s) == s,
    decreases s.len(),
{
    if s.len() > 0 {
        let d = s.drop_last();
        assert forall|k: int| 0 <= k < d.len() implies #[trigger] d[k] != '"' by {
            assert(d[k] == s[k]);
        }
        lemma_doubling_without_quotes(d);
        assert(s.last() != '"');
        assert(d + seq![s.last()] =~= s);
    }
}

/// The `Run` entry written for a program names that program again: for a
/// path without `"` (no Windows path holds one), reading the path out of
/// the command line built for it gives the path back.
pub proof fn run_command_names_its_program(exe: Seq<char>)
    requires
        forall|k: int| 0 <= k < exe.len() ==> #[trigger] exe[k] != '"',
    ensures
        run_command_path(run_command_for(exe)) == Some(exe),
{
    lemma_doubling_without_quotes(exe);
    let c = run_command_for(exe);
    assert(c =~= seq!['"'] + exe + seq!['"']);
    assert(c[0] == '"');
    assert(c[c.len() - 1] == '"');
    assert(trim_bounds(c, 0, c.len() as int));
    lemma_trim_bounds_unique(c, 0, c.len() as int);
    assert(c.subrange(0, c.len() as int) =~= c);
    let rest = c.drop_first();
    assert(rest =~= exe + seq!['"']);
    let n = exe.len() as int;
    assert(first_quote(rest, n)) by {
        assert forall|k: int| 0 <= k < n implies #[trigger] rest[k] != '"' by {
            assert(rest[k] == exe[k]);
        }
    }
    let chosen = choose|i: int| first_quote(rest, i);
    assert(chosen == n) by {
        assert(first_quote(rest, chosen));
        if chosen < n {
            assert(rest[chosen] == exe[chosen]);
        }
        if n < chosen {
            assert(rest[n] != '"');
        }
    }
    assert(rest.take(n) =~= exe);
}

/// Every line has an end for its first word.
proof fn lemma_first_word_end_exists(t: Seq<char>) -> (e: int)
    ensures
        first_word_end(t, e),
    decreases t.len(),
{
    if t.len() == 0 || is_white_space(t[0]) {
        0
    } else {
        let rest = t.drop_first();
        let e = lemma_first_word_end_exists(rest);
        assert forall|k: int| 0 <= k < e + 1 implies !is_white_space(#[trigger] t[k]) by {
            if k > 0 {
                assert(t[k] == rest[k - 1]);
            }
        }
        assert(e + 1 < t.len() ==> t[e + 1] == rest[e]);
        e + 1
    }
}

/// An unquoted `Run` line names its first word: when the trimmed line
/// `command[a..b]` is not blank and does not begin with `"`, the path read
/// is a non-empty run of characters at its start, without white space, that
/// ends at the end of the line or at a white-space character. In
/// particular a line that holds no white space is read whole.
pub proof fn unquoted_line_names_its_first_word(command: Seq<char>, a: int, b: int)
    requires
        trim_bounds(command, a, b),
        a < b,
        command[a] != '"',
    ensures
        run_command_path(command) matches Some(p) && {
            &&& 0 < p.len()
            &&& a + p.len() <= b
            &&& p == command.subrange(a, a + p.len())
            &&& forall|k: int| 0 <= k < p.len() ==> !is_white_space(#[trigger] p[k])
            &&& a + p.len() < b ==> is_white_space(command[a + p.len()])
        },
        (forall|k: int| a <= k < b ==> !is_white_space(#[trigger] command[k])) ==> run_command_path(
            command,
        ) == Some(command.subrange(a, b)),
{
    lemma_trim_bounds_unique(command, a, b);
    let t = command.subrange(a, b);
    assert(trimmed(command) == t);
    assert(t[0] == command[a]);
    let w = lemma_first_word_end_exists(t);
    let e = choose|e: int| first_word_end(t, e);
    assert(first_word_end(t, e));
    assert(!is_white_space(t[0]));
    assert(e > 0);
    let p = t.take(e);
    assert(run_command_path(command) == Some(p));
    assert(p =~= command.subrange(a, a + e));
    assert forall|k: int| 0 <= k < p.len() implies !is_white_space(#[trigger] p[k]) by {
        assert(p[k] == t[k]);
    }
    assert(a + e < b ==> command[a + e] == t[e]);
    if forall|k: int| a <= k < b ==> !is_white_space(#[trigger] command[k]) {
        if e < t.len() {
            assert(command[a + e] == t[e]);
        }
        assert(e == t.len());
        assert(p =~= t);
    }
}

/// A quoted `Run` line names what stands between its opening quote and the
/// next `"`.
pub proof fn quoted_line_names_the_quoted_path(command: Seq<char>, a: int, b: int, q: int)
    requires
        trim_bounds(command, a, b),
        a < q < b,
        command[a] == '"',
        command[q] == '"',
        forall|k: int| a < k < q ==> #[trigger] command[k] != '"',
    ensures
        run_command_path(command) == Some(command.subrange(a + 1, q)),
{
    lemma_trim_bounds_unique(command, a, b);
    let t = command.subrange(a, b);
    let rest = t.drop_first();
    let i = q - a - 1;
    assert(rest[i] == command[q]);
    assert forall|k: int| 0 <= k < i implies #[trigger] rest[k] != '"' by {
        assert(rest[k] == command[a + 1 + k]);
    }
    assert(first_quote(rest, i));
    let c = choose|j: int| first_quote(rest, j);
    assert(first_quote(rest, c));
    if c < i {
        assert(rest[c] != '"');
    }
    if i < c {
        assert(rest[i] != '"');
    }
    assert(rest.take(i) =~= command.subrange(a + 1, q));
}

/// A quoted `Run` line without its closing quote names no path.
pub proof fn unclosed_quote_names_nothing(command: Seq<char>, a: int, b: int)
    requires
        trim_bounds(command, a, b),
        a < b,
        command[a] == '"',
        forall|k: int| a < k < b ==> #[trigger] command[k] != '"',
    ensures
        run_command_path(command) is None,
{
    lemma_trim_bounds_unique(command, a, b);
    let t = command.subrange(a, b);
    let rest = t.drop_first();
    if exists|j: int| first_quote(rest, j) {
        let j = choose|j: int| first_quote(rest, j);
        assert(rest[j] == command[a + 1 + j]);
    }
}

/// A blank `Run` line names no path.
pub proof fn blank_line_names_nothing(command: Seq<char>)
    requires
        forall|k: int| 0 <= k < command.len() ==> is_white_space(#[trigger] command[k]),
    ensures
        run_command_path(command) is None,
{
    assert(trim_bounds(command, 0, 0));
    lemma_trim_bounds_unique(command, 0, 0);
}

} // verus!
