//! The native command line that a list of arguments is written as.

use vstd::prelude::*;

verus! {

/// The quote character, as a UTF-16 code unit.
pub const QUOTE: u16 = 0x22;

/// The backslash, as a UTF-16 code unit.
pub const BACKSLASH: u16 = 0x5c;

/// The space that separates two arguments.
pub const SPACE: u16 = 0x20;

/// The horizontal tab, which separates arguments as a space does.
pub const TAB: u16 = 0x09;

/// The unit that ends a native string.
pub const NUL: u16 = 0;

/// A run of `n` backslashes.
pub open spec fn backslashes(n: nat) -> Seq<u16> {
    Seq::new(n, |k: int| BACKSLASH)
}

/// Whether reading `arg` from position `i` on meets nothing but backslashes
/// up to a quote character or up to the end of `arg`, where the closing
/// quote follows.
pub open spec fn before_quote(arg: Seq<u16>, i: int) -> bool
    decreases arg.len() - i,
{
    if i < 0 {
        false
    } else if i >= arg.len() {
        true
    } else if arg[i] == QUOTE {
        true
    } else if arg[i] == BACKSLASH {
        before_quote(arg, i + 1)
    } else {
        false
    }
}

/// What the code unit at position `i` of `arg` is written as: a quote
/// character gets one backslash in front of it, a backslash is doubled where
/// only backslashes part it from a quote character, and every other unit
/// stands for itself.
pub open spec fn quoted_unit(arg: Seq<u16>, i: int) -> Seq<u16> {
    if arg[i] == QUOTE {
        seq![BACKSLASH, QUOTE]
    } else if arg[i] == BACKSLASH && before_quote(arg, i + 1) {
        seq![BACKSLASH, BACKSLASH]
    } else {
        seq![arg[i]]
    }
}

/// The first `n` code units of `arg` as they are written between the quotes.
pub open spec fn quoted_prefix(arg: Seq<u16>, n: int) -> Seq<u16>
    decreases n,
{
    if n <= 0 {
        Seq::empty()
    } else {
        quoted_prefix(arg, n - 1) + quoted_unit(arg, n - 1)
    }
}

/// One argument as it stands on the command line, between two quotes.
pub open spec fn quote_arg(arg: Seq<u16>) -> Seq<u16> {
    seq![QUOTE] + quoted_prefix(arg, arg.len() as int) + seq![QUOTE]
}

/// The quoted arguments, each two parted by one space.
pub open spec fn join_args(args: Seq<Seq<u16>>) -> Seq<u16>
    decreases args.len(),
{
    if args.len() == 0 {
        Seq::empty()
    } else if args.len() == 1 {
        quote_arg(args[0])
    } else {
        join_args(args.drop_last()) + seq![SPACE] + quote_arg(args.last())
    }
}

/// The native command line of `args`: the joined arguments and the ending unit.
pub open spec fn command_line(args: Seq<Seq<u16>>) -> Seq<u16> {
    join_args(args) + seq![NUL]
}

/// The arguments that a list of wide strings holds.
pub open spec fn args_of(words: Seq<Vec<u16>>) -> Seq<Seq<u16>> {
    Seq::new(words.len(), |k: int| words[k]@)
}

/// Across a run of backslashes the test for a following quote does not change.
proof fn lemma_before_quote_run(arg: Seq<u16>, from: int, to: int)
    requires
        0 <= from <= to <= arg.len(),
        forall|k: int| from <= k < to ==> arg[k] == BACKSLASH,
    ensures
        before_quote(arg, from) == before_quote(arg, to),
    decreases to - from,
{
    if from < to {
        lemma_before_quote_run(arg, from + 1, to);
    }
}

/// A run of backslashes is written doubled where a quote follows it, and as
/// it is elsewhere.
proof fn lemma_quoted_run(arg: Seq<u16>, from: int, to: int)
    requires
        0 <= from <= to <= arg.len(),
        forall|k: int| from <= k < to ==> arg[k] == BACKSLASH,
    ensures
        quoted_prefix(arg, to) == quoted_prefix(arg, from) + backslashes(
            if before_quote(arg, to) {
                (2 * (to - from)) as nat
            } else {
                (to - from) as nat
            },
        ),
    decreases to - from,
{
    if from == to {
        assert(quoted_prefix(arg, from) + backslashes(0) =~= quoted_prefix(arg, from));
    } else {
        lemma_quoted_run(arg, from, to - 1);
        lemma_before_quote_run(arg, to - 1, to);
        let b = before_quote(arg, to);
        assert(before_quote(arg, to - 1) == b);
        if b {
            assert(backslashes((2 * (to - 1 - from)) as nat) + seq![BACKSLASH, BACKSLASH]
                =~= backslashes((2 * (to - from)) as nat));
        } else {
            assert(backslashes((to - 1 - from) as nat) + seq![BACKSLASH] =~= backslashes(
                (to - from) as nat,
            ));
        }
    }
}

/// Whether `arg` holds no quote and does not end in a backslash, as the path
/// of a program does.
pub open spec fn plain_name(arg: Seq<u16>) -> bool {
    &&& forall|k: int| 0 <= k < arg.len() ==> arg[k] != QUOTE
    &&& arg.len() > 0 ==> arg[arg.len() - 1] != BACKSLASH
}

/// In a plain name no backslash stands in front of a quote.
proof fn lemma_plain_name_meets_no_quote(arg: Seq<u16>, i: int)
    requires
        plain_name(arg),
        0 <= i < arg.len(),
    ensures
        !before_quote(arg, i),
    decreases arg.len() - i,
{
    if i < arg.len() - 1 {
        lemma_plain_name_meets_no_quote(arg, i + 1);
    }
}

/// What is written for the first `n` units of a plain name are those units.
proof fn lemma_plain_name_prefix(arg: Seq<u16>, n: int)
    requires
        plain_name(arg),
        0 <= n <= arg.len(),
    ensures
        quoted_prefix(arg, n) == arg.take(n),
    decreases n,
{
    if n > 0 {
        lemma_plain_name_prefix(arg, n - 1);
        if n < arg.len() {
            lemma_plain_name_meets_no_quote(arg, n);
        }
        assert(quoted_unit(arg, n - 1) =~= seq![arg[n - 1]]);
        assert(arg.take(n - 1) + seq![arg[n - 1]] =~= arg.take(n));
    } else {
        assert(quoted_prefix(arg, 0) =~= arg.take(0));
    }
}

/// A plain name is written between the quotes as it is. So it reads the same
/// by the rule for arguments and by the simpler rule that the system's
/// runtime keeps for the name of the program, under which a backslash
/// always stands for itself.
pub proof fn lemma_plain_name_is_written_as_it_is(arg: Seq<u16>)
    requires
        plain_name(arg),
    ensures
        quote_arg(arg) == seq![QUOTE] + arg + seq![QUOTE],
{
    lemma_plain_name_prefix(arg, arg.len() as int);
    assert(arg.take(arg.len() as int) =~= arg);
}

/// Appends `n` backslashes to `out`.
pub(crate) fn push_backslashes(out: &mut Vec<u16>, n: usize)
    ensures
        final(out)@ == old(out)@ + backslashes(n as nat),
{
    let ghost before = out@;
    let mut k: usize = 0;
    while k < n
        invariant
            k <= n,
            out@ == before + backslashes(k as nat),
        decreases n - k,
    {
        out.push(BACKSLASH);
        assert(backslashes(k as nat).push(BACKSLASH) =~= backslashes((k + 1) as nat));
        k = k + 1;
    }
}

/// Appends to `cmd` the argument `arg` as it stands on a command line.
fn append_quoted(cmd: &mut Vec<u16>, arg: &Vec<u16>)
    ensures
        final(cmd)@ == old(cmd)@ + quote_arg(arg@),
{
    let ghost before = cmd@;
    cmd.push(QUOTE);
    // Backslashes met since the last unit of another kind: written once so
    // far, and once more as soon as a quote is seen to follow them.
    let mut pending: usize = 0;
    let mut i: usize = 0;
    while i < arg.len()
        invariant
            i <= arg.len(),
            pending <= i,
            forall|k: int| i - pending <= k < i ==> arg@[k] == BACKSLASH,
            cmd@ == before + seq![QUOTE] + quoted_prefix(arg@, i - pending) + backslashes(
                pending as nat,
            ),
        decreases arg.len() - i,
    {
        let c = arg[i];
        if c == BACKSLASH {
            cmd.push(BACKSLASH);
            assert(backslashes(pending as nat).push(BACKSLASH) =~= backslashes(
                (pending + 1) as nat,
            ));
            pending = pending + 1;
        } else {
            proof {
                lemma_quoted_run(arg@, i - pending, i as int);
            }
            if c == QUOTE {
                push_backslashes(cmd, pending);
                cmd.push(BACKSLASH);
                assert(backslashes(pending as nat) + backslashes(pending as nat) =~= backslashes(
                    (2 * pending) as nat,
                ));
            }
            cmd.push(c);
            assert(cmd@ =~= before + seq![QUOTE] + quoted_prefix(arg@, i + 1) + backslashes(0));
            pending = 0;
        }
        i = i + 1;
    }
    proof {
        lemma_quoted_run(arg@, i - pending, i as int);
    }
    push_backslashes(cmd, pending);
    cmd.push(QUOTE);
    assert(backslashes(pending as nat) + backslashes(pending as nat) =~= backslashes(
        (2 * pending) as nat,
    ));
    assert(cmd@ =~= before + quote_arg(arg@));
}

/// Writes the native command line of `command`: every argument between
/// quotes, with its own quotes and the backslashes in front of a quote
/// escaped, the arguments parted by single spaces, and the ending unit last.
pub fn build_command(command: &[Vec<u16>]) -> (cmd: Vec<u16>)
    ensures
        cmd@ == command_line(args_of(command@)),
{
    let mut cmd: Vec<u16> = Vec::new();
    let mut idx: usize = 0;
    while idx < command.len()
        invariant
            idx <= command.len(),
            cmd@ == join_args(args_of(command@).take(idx as int)),
        decreases command.len() - idx,
    {
        let ghost done = args_of(command@).take(idx as int);
        let ghost next = args_of(command@).take(idx + 1);
        assert(next.drop_last() =~= done);
        assert(next.last() == command@[idx as int]@);
        if idx != 0 {
            cmd.push(SPACE);
        }
        append_quoted(&mut cmd, &command[idx]);
        assert(cmd@ =~= join_args(next));
        idx = idx + 1;
    }
    assert(args_of(command@).take(idx as int) =~= args_of(command@));
    cmd.push(NUL);
    cmd
}

} // verus!
