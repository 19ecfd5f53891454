//! Reading the audio file to play from the command line.
use vstd::prelude::*;

verus! {

/// The command-line flag that names the audio file to play.
pub open spec fn input_flag() -> Seq<char> {
    seq!['-', 'i']
}

/// Scans the arguments from position `i` on, `found` being the path named so
/// far: each `-i` takes the argument after it as the path (a later `-i`
/// overrides an earlier one), and a `-i` with nothing after it leaves no
/// path at all.
pub open spec fn scan_input_path(args: Seq<Seq<char>>, i: int, found: Option<Seq<char>>) -> Option<
    Seq<char>,
>
    decreases args.len() - i,
{
    if i >= args.len() || i < 0 {
        found
    } else if args[i] == input_flag() {
        if i + 1 < args.len() {
            scan_input_path(args, i + 2, Some(args[i + 1]))
        } else {
            None
        }
    } else {
        scan_input_path(args, i + 1, found)
    }
}

/// The path named on a command line whose first argument is the program's
/// name.
pub open spec fn spec_input_path(args: Seq<Seq<char>>) -> Option<Seq<char>> {
    scan_input_path(args, 1, None)
}

proof fn lemma_scan_without_flag(args: Seq<Seq<char>>, i: int, found: Option<Seq<char>>)
    requires
        i >= 0,
        forall|j: int| i <= j < args.len() ==> #[trigger] args[j] != input_flag(),
    ensures
        scan_input_path(args, i, found) == found,
    decreases args.len() - i,
{
    if i < args.len() {
        lemma_scan_without_flag(args, i + 1, found);
    }
}

proof fn lemma_scan_result(args: Seq<Seq<char>>, i: int, found: Option<Seq<char>>)
    requires
        i >= 0,
    ensures
        scan_input_path(args, i, found) is Some ==> scan_input_path(args, i, found) == found
            || exists|j: int|
            i <= j && j + 1 < args.len() && #[trigger] args[j] == input_flag() && Some(
                args[j + 1],
            ) == scan_input_path(args, i, found),
    decreases args.len() - i,
{
    if i < args.len() {
        if args[i] == input_flag() {
            if i + 1 < args.len() {
                lemma_scan_result(args, i + 2, Some(args[i + 1]));
            }
        } else {
            lemma_scan_result(args, i + 1, found);
        }
    }
}

proof fn lemma_scan_skip(args: Seq<Seq<char>>, i: int, k: int, found: Option<Seq<char>>)
    requires
        0 <= i <= k <= args.len(),
        forall|j: int| i <= j < k ==> #[trigger] args[j] != input_flag(),
    ensures
        scan_input_path(args, i, found) == scan_input_path(args, k, found),
    decreases k - i,
{
    if i < k {
        lemma_scan_skip(args, i + 1, k, found);
    }
}

/// A later `-i` overrides an earlier one.
pub proof fn lemma_later_flag_wins(
    program: Seq<char>,
    first: Seq<char>,
    second: Seq<char>,
    rest: Seq<Seq<char>>,
)
    requires
        forall|j: int| 0 <= j < rest.len() ==> #[trigger] rest[j] != input_flag(),
    ensures
        spec_input_path(seq![program, input_flag(), first, input_flag(), second] + rest) == Some(
            second,
        ),
{
    let args = seq![program, input_flag(), first, input_flag(), second] + rest;
    assert(args[1] == input_flag() && args[3] == input_flag() && args[4] == second);
    assert forall|j: int| 5 <= j < args.len() implies #[trigger] args[j] != input_flag() by {
        assert(args[j] == rest[j - 5]);
    }
    lemma_scan_without_flag(args, 5, Some(second));
    assert(scan_input_path(args, 3, Some(first)) == scan_input_path(args, 5, Some(second)));
    assert(scan_input_path(args, 1, None) == scan_input_path(args, 3, Some(first)));
}

/// A `-i` at the very end, with nothing after it, leaves no file named,
/// even after an earlier `-i path`.
pub proof fn lemma_trailing_flag_names_nothing(
    program: Seq<char>,
    path: Seq<char>,
    rest: Seq<Seq<char>>,
)
    requires
        forall|j: int| 0 <= j < rest.len() ==> #[trigger] rest[j] != input_flag(),
    ensures
        spec_input_path(seq![program, input_flag(), path] + rest + seq![input_flag()]) is None,
{
    let args = seq![program, input_flag(), path] + rest + seq![input_flag()];
    let k = args.len() - 1;
    assert(args[1] == input_flag() && args[2] == path && args[k] == input_flag());
    assert forall|j: int| 3 <= j < k implies #[trigger] args[j] != input_flag() by {
        assert(args[j] == rest[j - 3]);
    }
    lemma_scan_skip(args, 3, k, Some(path));
}

/// Without a `-i` after the program's name, no file is named.
pub proof fn lemma_no_flag_no_path(args: Seq<Seq<char>>)
    requires
        forall|j: int| 1 <= j < args.len() ==> #[trigger] args[j] != input_flag(),
    ensures
        spec_input_path(args) is None,
{
    lemma_scan_without_flag(args, 1, None);
}

/// A named file is always an argument that directly follows a `-i`.
pub proof fn lemma_path_follows_a_flag(args: Seq<Seq<char>>)
    ensures
        spec_input_path(args) is Some ==> exists|j: int|
            1 <= j && j + 1 < args.len() && #[trigger] args[j] == input_flag() && Some(args[j + 1])
                == spec_input_path(args),
{
    lemma_scan_result(args, 1, None);
}

/// `program -i path` followed by arguments that are not `-i` names `path`.
pub proof fn lemma_flag_names_path(program: Seq<char>, path: Seq<char>, rest: Seq<Seq<char>>)
    requires
        forall|j: int| 0 <= j < rest.len() ==> #[trigger] rest[j] != input_flag(),
    ensures
        spec_input_path(seq![program, input_flag(), path] + rest) == Some(path),
{
    let args = seq![program, input_flag(), path] + rest;
    assert(args[1] == input_flag());
    assert forall|j: int| 3 <= j < args.len() implies #[trigger] args[j] != input_flag() by {
        assert(args[j] == rest[j - 3]);
    }
    lemma_scan_without_flag(args, 3, Some(path));
}

/// The arguments as character sequences.
pub open spec fn arg_views(args: Seq<String>) -> Seq<Seq<char>> {
    args.map_values(|a: String| a@)
}

/// The audio file that the command line `args` (the program's name first)
/// asks to play: the argument that follows the last `-i`.
pub fn parse_input_path(args: &Vec<String>) -> (path: Option<String>)
    ensures
        match path {
            Some(p) => spec_input_path(arg_views(args@)) == Some(p@),
            None => spec_input_path(arg_views(args@)) is None,
        },
{
    let ghost views = arg_views(args@);
    proof {
        reveal_strlit("-i");
    }
    let flag: String = "-i".to_owned();
    let mut found: Option<String> = None;
    let mut i: usize = 1;
    while i < args.len()
        invariant
            flag@ == input_flag(),
            views == arg_views(args@),
            1 <= i,
            spec_input_path(views) == scan_input_path(
                views,
                i as int,
                match found {
                    Some(p) => Some(p@),
                    None => None,
                },
            ),
        decreases args@.len() - i,
    {
        if args[i] == flag {
            if i + 1 < args.len() {
                found = Some(args[i + 1].clone());
                i = i + 2;
            } else {
                return None;
            }
        } else {
            i = i + 1;
        }
    }
    found
}

} // verus!
