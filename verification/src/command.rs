//! Assembling the command line of the process to start.

use vstd::prelude::*;
use crate::backend::{command_argv, new_command, push_arg};

verus! {

/// The position of the first absent entry, or the length where every entry
/// is present.
pub open spec fn first_absent(entries: Seq<Option<Seq<char>>>) -> int
    decreases entries.len(),
{
    if entries.len() == 0 || entries[0] is None {
        0
    } else {
        1 + first_absent(entries.drop_first())
    }
}

/// How many leading entries are looked at: with a count, that many, as far
/// as there are entries; without one, those before the first absent entry.
pub open spec fn scan_len(entries: Seq<Option<Seq<char>>>, count: Option<usize>) -> int {
    match count {
        Some(n) => if n <= entries.len() {
            n as int
        } else {
            entries.len() as int
        },
        None => first_absent(entries),
    }
}

/// The present entries, in their order.
pub open spec fn present(entries: Seq<Option<Seq<char>>>) -> Seq<Seq<char>> {
    entries.filter_map(|e: Option<Seq<char>>| e)
}

/// The arguments that `entries` stand for: the present ones among the
/// entries looked at, in their order. An absent entry is passed over.
pub open spec fn selected(entries: Seq<Option<Seq<char>>>, count: Option<usize>) -> Seq<Seq<char>> {
    present(entries.take(scan_len(entries, count)))
}

/// `first_absent` is the one position that is absent, or the end, and has
/// only present entries before it.
pub proof fn lemma_first_absent(entries: Seq<Option<Seq<char>>>, k: int)
    requires
        0 <= k <= entries.len(),
        forall|j: int| 0 <= j < k ==> entries[j] is Some,
        k == entries.len() || entries[k] is None,
    ensures
        first_absent(entries) == k,
    decreases entries.len(),
{
    if k > 0 {
        let rest = entries.drop_first();
        assert forall|j: int| 0 <= j < k - 1 implies rest[j] is Some by {
            assert(rest[j] == entries[j + 1]);
        }
        if k < entries.len() {
            assert(rest[k - 1] == entries[k]);
        }
        lemma_first_absent(rest, k - 1);
    }
}

/// Finds how many leading entries are looked at.
pub fn scan_limit(argv: &Vec<Option<String>>, count: Option<usize>) -> (limit: usize)
    ensures
        limit == scan_len(argv.deep_view(), count),
        limit <= argv.len(),
{
    match count {
        Some(n) => {
            if n <= argv.len() {
                n
            } else {
                argv.len()
            }
        },
        None => {
            let mut k: usize = 0;
            while k < argv.len() && argv[k].is_some()
                invariant
                    k <= argv.len(),
                    forall|j: int| 0 <= j < k ==> argv.deep_view()[j] is Some,
                decreases argv.len() - k,
            {
                k += 1;
            }
            proof {
                lemma_first_absent(argv.deep_view(), k as int);
            }
            k
        },
    }
}

/// Collects the arguments that `argv` stands for.
pub fn select_args(argv: &Vec<Option<String>>, count: Option<usize>) -> (args: Vec<String>)
    ensures
        args.deep_view() == selected(argv.deep_view(), count),
{
    let limit = scan_limit(argv, count);
    let ghost entries = argv.deep_view();
    let ghost keep = |e: Option<Seq<char>>| e;
    let mut args: Vec<String> = Vec::new();
    let mut i: usize = 0;
    assert(args.deep_view() =~= present(entries.take(0)));
    while i < limit
        invariant
            i <= limit <= argv.len(),
            entries == argv.deep_view(),
            keep == |e: Option<Seq<char>>| e,
            args.deep_view() == present(entries.take(i as int)),
        decreases limit - i,
    {
        proof {
            entries.lemma_filter_map_take_succ(keep, i as int);
        }
        let ghost before = args.deep_view();
        match &argv[i] {
            Some(s) => {
                args.push(s.clone());
                assert(args.deep_view() =~= before + seq![s@]);
            },
            None => {},
        }
        i += 1;
    }
    args
}

/// Builds the command line of `program` with the arguments that `argv`
/// stands for.
pub fn assemble_command(program: &str, argv: &Vec<Option<String>>, count: Option<usize>) -> (cmd:
    portable_pty::CommandBuilder)
    ensures
        command_argv(cmd) == seq![program@] + selected(argv.deep_view(), count),
{
    let args = select_args(argv, count);
    let mut cmd = new_command(program);
    let mut i: usize = 0;
    assert(command_argv(cmd) =~= seq![program@] + args.deep_view().take(0));
    while i < args.len()
        invariant
            i <= args.len(),
            command_argv(cmd) == seq![program@] + args.deep_view().take(i as int),
        decreases args.len() - i,
    {
        push_arg(&mut cmd, args[i].as_str());
        assert(args.deep_view().take(i + 1) =~= args.deep_view().take(i as int).push(args[i as int]@));
        assert(command_argv(cmd) =~= seq![program@] + args.deep_view().take(i + 1));
        i += 1;
    }
    assert(args.deep_view().take(args.len() as int) =~= args.deep_view());
    cmd
}

} // verus!
