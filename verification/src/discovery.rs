//! Server auto-discovery: where in `$PATH` the launcher
//! `emacs-mcp-stdio.sh` is looked for. Which candidate exists as an
//! executable file is decided by the caller, which reads the file system.
use vstd::prelude::*;
use crate::argv::views;

verus! {

/// The file name of the launcher.
pub open spec fn launcher() -> Seq<char> {
    "emacs-mcp-stdio.sh"@
}

/// The pieces of `s` between `:` separators, from `start`, with the piece
/// under way beginning at `start` and the scan at `i`.
pub open spec fn segments(s: Seq<char>, start: int, i: int) -> Seq<Seq<char>>
    decreases s.len() - i,
{
    if i < start || i >= s.len() {
        seq![s.subrange(start, s.len() as int)]
    } else if s[i] == ':' {
        seq![s.subrange(start, i)] + segments(s, i + 1, i + 1)
    } else {
        segments(s, start, i + 1)
    }
}

/// The pieces of `s` between `:` separators, as `str::split(':')` gives them.
pub open spec fn split_colon(s: Seq<char>) -> Seq<Seq<char>> {
    segments(s, 0, 0)
}

/// A directory joined with the launcher's file name, as `Path::join` does.
pub open spec fn join_launcher(dir: Seq<char>) -> Seq<char> {
    if dir.len() > 0 && dir.last() == '/' {
        dir + launcher()
    } else {
        dir + seq!['/'] + launcher()
    }
}

/// The launcher paths of the non-empty directories, in order.
pub open spec fn candidates_of(dirs: Seq<Seq<char>>) -> Seq<Seq<char>>
    decreases dirs.len(),
{
    if dirs.len() == 0 {
        Seq::empty()
    } else if dirs[0].len() == 0 {
        candidates_of(dirs.drop_first())
    } else {
        seq![join_launcher(dirs[0])] + candidates_of(dirs.drop_first())
    }
}

proof fn lemma_candidates_cons(x: Seq<char>, rest: Seq<Seq<char>>)
    ensures
        candidates_of(seq![x] + rest) == (if x.len() == 0 {
            Seq::empty()
        } else {
            seq![join_launcher(x)]
        }) + candidates_of(rest),
{
    let l = seq![x] + rest;
    assert(l[0] == x);
    assert(l.drop_first() =~= rest);
    if x.len() == 0 {
        assert(Seq::<Seq<char>>::empty() + candidates_of(rest) =~= candidates_of(rest));
    }
}

fn join_launcher_exec(dir: &str) -> (r: String)
    ensures
        r@ == join_launcher(dir@),
{
    let n = dir.unicode_len();
    let mut out = dir.to_owned();
    if n > 0 && dir.get_char(n - 1) == '/' {
        out.append("emacs-mcp-stdio.sh");
    } else {
        out.append("/");
        proof {
            reveal_strlit("/");
        }
        out.append("emacs-mcp-stdio.sh");
    }
    out
}

/// The paths at which the launcher is looked for, in search order: the
/// launcher's name joined to each non-empty directory of a `$PATH` value.
pub fn launcher_candidates(path_var: &str) -> (r: Vec<String>)
    ensures
        views(r@) == candidates_of(split_colon(path_var@)),
{
    let ghost s = path_var@;
    let n = path_var.unicode_len();
    let mut out: Vec<String> = Vec::new();
    let mut start: usize = 0;
    let mut i: usize = 0;
    while i < n
        invariant
            n == s.len(),
            s == path_var@,
            start <= i <= n,
            views(out@) + candidates_of(segments(s, start as int, i as int)) == candidates_of(
                split_colon(s),
            ),
        decreases n - i,
    {
        if path_var.get_char(i) == ':' {
            let seg = path_var.substring_char(start, i);
            proof {
                lemma_candidates_cons(seg@, segments(s, i + 1, i + 1));
            }
            if i > start {
                let ghost before = views(out@);
                out.push(join_launcher_exec(seg));
                assert(views(out@) =~= before + seq![join_launcher(seg@)]);
            } else {
                assert(seg@.len() == 0);
            }
            start = i + 1;
            i = i + 1;
            assert(views(out@) + candidates_of(segments(s, start as int, i as int)) =~= candidates_of(
                split_colon(s),
            ));
        } else {
            i = i + 1;
        }
    }
    let seg = path_var.substring_char(start, n);
    proof {
        lemma_candidates_cons(seg@, Seq::empty());
        assert(seq![seg@] + Seq::<Seq<char>>::empty() =~= seq![seg@]);
        assert(candidates_of(Seq::<Seq<char>>::empty()) =~= Seq::<Seq<char>>::empty());
    }
    if n > start {
        let ghost before = views(out@);
        out.push(join_launcher_exec(seg));
        assert(views(out@) =~= before + seq![join_launcher(seg@)]);
    }
    assert(views(out@) =~= candidates_of(split_colon(s)));
    out
}

/// The message of a failed search.
pub fn not_found_message() -> (r: String)
    ensures
        r@ == not_found_text(),
{
    "no --server specified and emacs-mcp-stdio.sh not found in $PATH; pass --server <cmd> or install the launcher".to_owned()
}


/// The text of [`not_found_message`].
pub open spec fn not_found_text() -> Seq<char> {
    "no --server specified and emacs-mcp-stdio.sh not found in $PATH; pass --server <cmd> or install the launcher"@
}

/// Picks the launcher among the candidates of [`launcher_candidates`]:
/// `executable[i]` tells whether candidate `i` is an executable file. The
/// first such candidate is the server command; with none, the search fails
/// with [`not_found_message`].
pub fn discover_server(candidates: &Vec<String>, executable: &Vec<bool>) -> (r: Result<Vec<String>, String>)
    requires
        executable@.len() == candidates@.len(),
    ensures
        match r {
            Ok(argv) => exists|i: int|
                0 <= i < candidates@.len() && #[trigger] executable@[i] && (forall|j: int|
                    0 <= j < i ==> !executable@[j]) && argv@ == seq![candidates@[i]],
            Err(m) => (forall|i: int| 0 <= i < candidates@.len() ==> !#[trigger] executable@[i])
                && m@ == not_found_text(),
        },
{
    let mut i: usize = 0;
    while i < candidates.len()
        invariant
            executable@.len() == candidates@.len(),
            i <= candidates@.len(),
            forall|j: int| 0 <= j < i ==> !#[trigger] executable@[j],
        decreases candidates@.len() - i,
    {
        if executable[i] {
            let mut argv: Vec<String> = Vec::new();
            argv.push(candidates[i].clone());
            assert(executable@[i as int]);
            return Ok(argv);
        }
        i = i + 1;
    }
    Err(not_found_message())
}

} // verus!
