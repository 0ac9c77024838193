//! Preprocessing of the command line for the `--` form of trailing launcher
//! arguments: `org --server foo -- --socket /tmp/s tools list` hands
//! `--socket /tmp/s` to the launcher, like repeated `--server-arg`.
use vstd::prelude::*;
use crate::json::str_eq;

verus! {

/// The characters of each string.
pub open spec fn views(v: Seq<String>) -> Seq<Seq<char>> {
    Seq::new(v.len(), |i: int| v[i]@)
}

/// The characters of each string slice.
pub open spec fn str_views(v: Seq<&str>) -> Seq<Seq<char>> {
    Seq::new(v.len(), |i: int| v[i]@)
}

/// Top-level flags whose next token is their value, never a sentinel.
pub open spec fn is_value_flag(t: Seq<char>) -> bool {
    t == "--server"@ || t == "--server-arg"@ || t == "--timeout"@
}

/// Where the search for the sentinel, started at `i`, finds it: the first
/// `--` reached when a value flag makes the search skip the token after it.
pub open spec fn scan_sentinel(a: Seq<Seq<char>>, i: int) -> Option<int>
    decreases a.len() + 2 - i,
{
    if i < 0 || i >= a.len() {
        None
    } else if a[i] == "--"@ {
        Some(i)
    } else if is_value_flag(a[i]) {
        scan_sentinel(a, i + 2)
    } else {
        scan_sentinel(a, i + 1)
    }
}

/// The position of the top-level `--` in a command line; the program name
/// at position 0 is never searched.
pub open spec fn sentinel_index(a: Seq<Seq<char>>) -> Option<int> {
    scan_sentinel(a, if a.len() == 0 { 0 } else { 1 })
}

/// The first position at or after `j` that holds a known subcommand.
pub open spec fn first_subcommand(a: Seq<Seq<char>>, subs: Seq<Seq<char>>, j: int) -> Option<int>
    decreases a.len() - j,
{
    if j < 0 || j >= a.len() {
        None
    } else if subs.contains(a[j]) {
        Some(j)
    } else {
        first_subcommand(a, subs, j + 1)
    }
}

/// Where the launcher arguments after the sentinel `s` end: at the first
/// subcommand after it, or at the end of the line.
pub open spec fn extra_end(a: Seq<Seq<char>>, subs: Seq<Seq<char>>, s: int) -> int {
    match first_subcommand(a, subs, s + 1) {
        Some(j) => j,
        None => a.len() as int,
    }
}

/// The result of splitting `argv` at its sentinel: the cleaned command line
/// and the launcher arguments.
pub open spec fn split_spec(argv: Seq<String>, subs: Seq<Seq<char>>) -> (Seq<String>, Seq<String>) {
    match sentinel_index(views(argv)) {
        None => (argv, Seq::empty()),
        Some(s) => {
            let e = extra_end(views(argv), subs, s);
            (argv.subrange(0, s) + argv.subrange(e, argv.len() as int), argv.subrange(s + 1, e))
        },
    }
}

proof fn lemma_scan_bounds(a: Seq<Seq<char>>, i: int)
    ensures
        scan_sentinel(a, i) matches Some(k) ==> i <= k < a.len() && a[k] == "--"@,
    decreases a.len() + 2 - i,
{
    if 0 <= i < a.len() && a[i] != "--"@ {
        if is_value_flag(a[i]) {
            lemma_scan_bounds(a, i + 2);
        } else {
            lemma_scan_bounds(a, i + 1);
        }
    }
}

proof fn lemma_first_subcommand_bounds(a: Seq<Seq<char>>, subs: Seq<Seq<char>>, j: int)
    ensures
        first_subcommand(a, subs, j) matches Some(k) ==> j <= k < a.len() && subs.contains(a[k]),
        j >= 0 ==> forall|k: int|
            j <= k < a.len() && (first_subcommand(a, subs, j) is None || k < first_subcommand(
                a,
                subs,
                j,
            )->0) ==> !subs.contains(#[trigger] a[k]),
    decreases a.len() - j,
{
    if 0 <= j < a.len() && !subs.contains(a[j]) {
        lemma_first_subcommand_bounds(a, subs, j + 1);
    }
}

fn is_value_flag_exec(t: &str) -> (r: bool)
    ensures
        r == is_value_flag(t@),
{
    str_eq(t, "--server") || str_eq(t, "--server-arg") || str_eq(t, "--timeout")
}

fn is_subcommand(t: &str, subcommands: &[&str]) -> (r: bool)
    ensures
        r == str_views(subcommands@).contains(t@),
{
    let mut k: usize = 0;
    while k < subcommands.len()
        invariant
            k <= subcommands@.len(),
            forall|m: int| 0 <= m < k ==> subcommands@[m]@ != t@,
        decreases subcommands@.len() - k,
    {
        if str_eq(subcommands[k], t) {
            assert(str_views(subcommands@)[k as int] == t@);
            return true;
        }
        k = k + 1;
    }
    assert forall|m: int| 0 <= m < str_views(subcommands@).len() implies str_views(
        subcommands@,
    )[m] != t@ by {
        assert(subcommands@[m]@ != t@);
    }
    false
}

fn copy_range(argv: &Vec<String>, from: usize, to: usize, out: &mut Vec<String>)
    requires
        from <= to <= argv@.len(),
    ensures
        final(out)@ == old(out)@ + argv@.subrange(from as int, to as int),
{
    let mut i = from;
    while i < to
        invariant
            from <= i <= to,
            to <= argv@.len(),
            out@ == old(out)@ + argv@.subrange(from as int, i as int),
        decreases to - i,
    {
        out.push(argv[i].clone());
        assert(argv@.subrange(from as int, i + 1) =~= argv@.subrange(from as int, i as int).push(
            argv@[i as int],
        ));
        i = i + 1;
    }
}

/// Splits `argv` at the first top-level `--`, routing the tokens between
/// `--` and the first known subcommand into a separate vector. The value of
/// a value flag (`--server`, `--server-arg`, `--timeout`) is skipped while
/// searching, so `--server-arg --` is a literal value, not a sentinel.
///
/// Returns `(cleaned, extra)`: `cleaned` is the command line without the
/// sentinel and the launcher arguments, `extra` are the launcher arguments.
pub fn split_sentinel(argv: Vec<String>, subcommands: &[&str]) -> (r: (Vec<String>, Vec<String>))
    ensures
        (r.0@, r.1@) == split_spec(argv@, str_views(subcommands@)),
{
    let ghost a = views(argv@);
    let ghost subs = str_views(subcommands@);
    let len = argv.len();
    let mut i: usize = if len == 0 { 0 } else { 1 };
    let mut sentinel: Option<usize> = None;
    while i < len
        invariant_except_break
            len == argv@.len(),
            a == views(argv@),
            sentinel is None,
            sentinel_index(a) == scan_sentinel(a, i as int),
        ensures
            len == argv@.len(),
            a == views(argv@),
            sentinel_index(a) == match sentinel {
                Some(s) => Some(s as int),
                None => None,
            },
        decreases len - i,
    {
        let tok = argv[i].as_str();
        assert(a[i as int] == tok@);
        if str_eq(tok, "--") {
            sentinel = Some(i);
            break;
        }
        if is_value_flag_exec(tok) {
            if i + 1 < len {
                i = i + 2;
            } else {
                assert(scan_sentinel(a, i + 2) is None);
                i = len;
            }
        } else {
            i = i + 1;
        }
    }
    match sentinel {
        None => {
            let extra: Vec<String> = Vec::new();
            (argv, extra)
        },
        Some(s) => {
            proof {
                lemma_scan_bounds(a, if a.len() == 0 { 0 } else { 1 });
            }
            let mut j: usize = s + 1;
            while j < len
                invariant_except_break
                    len == argv@.len(),
                    a == views(argv@),
                    subs == str_views(subcommands@),
                    s < j <= len,
                    first_subcommand(a, subs, s + 1) == first_subcommand(a, subs, j as int),
                ensures
                    len == argv@.len(),
                    s < j <= len,
                    extra_end(a, subs, s as int) == j,
                decreases len - j,
            {
                assert(a[j as int] == argv@[j as int]@);
                if is_subcommand(argv[j].as_str(), subcommands) {
                    break;
                }
                j = j + 1;
            }
            let mut cleaned: Vec<String> = Vec::new();
            copy_range(&argv, 0, s, &mut cleaned);
            copy_range(&argv, j, len, &mut cleaned);
            let mut extra: Vec<String> = Vec::new();
            copy_range(&argv, s + 1, j, &mut extra);
            assert(cleaned@ =~= argv@.subrange(0, s as int) + argv@.subrange(j as int, len as int));
            assert(extra@ =~= argv@.subrange(s + 1, j as int));
            (cleaned, extra)
        },
    }
}

/// Splitting loses no token and reorders none: the cleaned line up to the
/// sentinel, the sentinel, the launcher arguments and the rest of the
/// cleaned line give back the original command line.
pub proof fn lemma_split_keeps_tokens(argv: Seq<String>, subs: Seq<Seq<char>>)
    requires
        sentinel_index(views(argv)) is Some,
    ensures
        ({
            let s = sentinel_index(views(argv))->0;
            let (cleaned, extra) = split_spec(argv, subs);
            &&& 0 <= s < argv.len()
            &&& argv[s]@ == "--"@
            &&& cleaned.subrange(0, s) + seq![argv[s]] + extra + cleaned.skip(s) == argv
            &&& cleaned.len() + extra.len() + 1 == argv.len()
        }),
{
    let a = views(argv);
    let s = sentinel_index(a)->0;
    lemma_scan_bounds(a, if a.len() == 0 { 0 } else { 1 });
    lemma_first_subcommand_bounds(a, subs, s + 1);
    let e = extra_end(a, subs, s);
    let (cleaned, extra) = split_spec(argv, subs);
    assert(a[s] == argv[s]@);
    assert(cleaned.subrange(0, s) =~= argv.subrange(0, s));
    assert(cleaned.skip(s) =~= argv.subrange(e, argv.len() as int));
    assert(cleaned.subrange(0, s) + seq![argv[s]] + extra + cleaned.skip(s) =~= argv);
}

/// Without a top-level `--`, the command line is left as it is.
pub proof fn lemma_no_sentinel_unchanged(argv: Seq<String>, subs: Seq<Seq<char>>)
    requires
        sentinel_index(views(argv)) is None,
    ensures
        split_spec(argv, subs) == (argv, Seq::<String>::empty()),
{
}

} // verus!
