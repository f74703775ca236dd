//! How a started program reads its command line back into arguments, and the
//! proof that it reads what `build_command` wrote.
//!
//! The reading follows the rules by which the system's runtime splits a
//! command line into arguments, and applies them to every argument alike.
//! The runtime itself reads the first argument, the name of the program, by
//! a simpler rule, under which a backslash always stands for itself; a name
//! without quotes that does not end in a backslash is written as it is and
//! reads the same by both rules.

use vstd::prelude::*;
use crate::win::cmdline::{
    args_of, backslashes, before_quote, command_line, join_args, quote_arg, quoted_prefix,
    quoted_unit, push_backslashes, BACKSLASH, NUL, QUOTE, SPACE, TAB,
};

verus! {

/// Where the native reader stands between two code units of a command line.
pub struct Reader {
    /// The arguments read to their end.
    pub done: Seq<Seq<u16>>,
    /// The units of the argument being read, but for the backslashes below.
    pub cur: Seq<u16>,
    /// Backslashes read last, whose meaning the next unit settles.
    pub pending: nat,
    /// Whether an argument has begun.
    pub in_arg: bool,
    /// Whether a quote is open.
    pub in_quotes: bool,
}

/// The reader before the first unit.
pub open spec fn reader_start() -> Reader {
    Reader { done: Seq::empty(), cur: Seq::empty(), pending: 0, in_arg: false, in_quotes: false }
}

/// The arguments once the line has ended: an argument that has begun is
/// closed, its pending backslashes standing for themselves.
pub open spec fn reader_end(r: Reader) -> Seq<Seq<u16>> {
    if r.in_arg {
        r.done.push(r.cur + backslashes(r.pending))
    } else {
        r.done
    }
}

/// The arguments that the native reader takes from `line`, on from position
/// `i` and state `r`. The line ends at its first `NUL`, or where it ends.
///
/// - A backslash is held back until the unit after its run is known.
/// - In front of a quote, each two backslashes stand for one; if one is left
///   over, the quote is a unit of the argument. If none is, the quote opens
///   or closes a quoted stretch, unless it stands inside one and is doubled,
///   when the pair is one quote of the argument.
/// - In front of anything else, backslashes stand for themselves.
/// - Outside quotes, a space or tab ends the argument; inside, it is a unit.
pub open spec fn read_from(line: Seq<u16>, i: int, r: Reader) -> Seq<Seq<u16>>
    decreases line.len() - i,
{
    if i < 0 || i >= line.len() || line[i] == NUL {
        reader_end(r)
    } else if line[i] == BACKSLASH {
        read_from(line, i + 1, Reader { pending: r.pending + 1, in_arg: true, ..r })
    } else if line[i] == QUOTE {
        let cur = r.cur + backslashes(r.pending / 2);
        if r.pending % 2 == 1 {
            read_from(line, i + 1, Reader { cur: cur.push(QUOTE), pending: 0, in_arg: true, ..r })
        } else if r.in_quotes && i + 1 < line.len() && line[i + 1] == QUOTE {
            read_from(line, i + 2, Reader { cur: cur.push(QUOTE), pending: 0, in_arg: true, ..r })
        } else {
            read_from(
                line,
                i + 1,
                Reader { cur: cur, pending: 0, in_arg: true, in_quotes: !r.in_quotes, ..r },
            )
        }
    } else if !r.in_quotes && (line[i] == SPACE || line[i] == TAB) {
        if r.in_arg {
            read_from(
                line,
                i + 1,
                Reader {
                    done: r.done.push(r.cur + backslashes(r.pending)),
                    cur: Seq::empty(),
                    pending: 0,
                    in_arg: false,
                    in_quotes: false,
                },
            )
        } else {
            read_from(line, i + 1, r)
        }
    } else {
        read_from(
            line,
            i + 1,
            Reader {
                cur: (r.cur + backslashes(r.pending)).push(line[i]),
                pending: 0,
                in_arg: true,
                ..r
            },
        )
    }
}

/// The arguments that a started program finds on the command line `line`.
pub open spec fn split_args(line: Seq<u16>) -> Seq<Seq<u16>> {
    read_from(line, 0, reader_start())
}

/// Reads a native command line into its arguments, as a started program does.
pub fn split_command_line(line: &[u16]) -> (args: Vec<Vec<u16>>)
    ensures
        args_of(args@) == split_args(line@),
{
    let mut args: Vec<Vec<u16>> = Vec::new();
    let mut cur: Vec<u16> = Vec::new();
    let mut pending: usize = 0;
    let mut in_arg = false;
    let mut in_quotes = false;
    let mut i: usize = 0;
    assert(args_of(args@) =~= Seq::<Seq<u16>>::empty());
    while i < line.len() && line[i] != NUL
        invariant
            i <= line.len(),
            pending <= i,
            read_from(
                line@,
                i as int,
                Reader {
                    done: args_of(args@),
                    cur: cur@,
                    pending: pending as nat,
                    in_arg: in_arg,
                    in_quotes: in_quotes,
                },
            ) == split_args(line@),
        decreases line.len() - i,
    {
        let c = line[i];
        if c == BACKSLASH {
            pending = pending + 1;
            in_arg = true;
            i = i + 1;
        } else if c == QUOTE {
            push_backslashes(&mut cur, pending / 2);
            if pending % 2 == 1 {
                cur.push(QUOTE);
                i = i + 1;
            } else if in_quotes && i + 1 < line.len() && line[i + 1] == QUOTE {
                cur.push(QUOTE);
                i = i + 2;
            } else {
                in_quotes = !in_quotes;
                i = i + 1;
            }
            pending = 0;
            in_arg = true;
        } else if !in_quotes && (c == SPACE || c == TAB) {
            if in_arg {
                push_backslashes(&mut cur, pending);
                let ghost before = args_of(args@);
                let ghost word = cur@;
                args.push(cur);
                assert(args_of(args@) =~= before.push(word));
                cur = Vec::new();
                pending = 0;
                in_arg = false;
            }
            i = i + 1;
        } else {
            push_backslashes(&mut cur, pending);
            cur.push(c);
            pending = 0;
            in_arg = true;
            i = i + 1;
        }
    }
    if in_arg {
        push_backslashes(&mut cur, pending);
        let ghost before = args_of(args@);
        let ghost word = cur@;
        args.push(cur);
        assert(args_of(args@) =~= before.push(word));
    }
    args
}

/// Whether no argument holds the unit that ends a native string.
pub open spec fn nul_free(args: Seq<Seq<u16>>) -> bool {
    forall|k: int, j: int| 0 <= k < args.len() && 0 <= j < args[k].len() ==> args[k][j] != NUL
}

/// Where the opening quote of argument `k` stands in the command line of `args`.
spec fn arg_start(args: Seq<Seq<u16>>, k: int) -> int {
    if k <= 0 {
        0
    } else {
        (join_args(args.take(k)).len() + 1) as int
    }
}

/// What is written for the first `a` units of an argument begins what is
/// written for its first `b` units.
proof fn lemma_quoted_prefix_grows(arg: Seq<u16>, a: int, b: int)
    requires
        0 <= a <= b <= arg.len(),
    ensures
        quoted_prefix(arg, a).len() <= quoted_prefix(arg, b).len(),
        forall|m: int|
            0 <= m < quoted_prefix(arg, a).len() ==> quoted_prefix(arg, b)[m] == quoted_prefix(
                arg,
                a,
            )[m],
    decreases b - a,
{
    if a < b {
        lemma_quoted_prefix_grows(arg, a, b - 1);
    }
}

/// Inside the quotes the reader takes back the argument that was written:
/// having read what stands for the first `j` units, of which the last `run`
/// are backslashes still pending, it goes on to the unit after the closing
/// quote with the whole argument read.
proof fn lemma_read_quoted(
    line: Seq<u16>,
    base: int,
    arg: Seq<u16>,
    j: int,
    run: int,
    done: Seq<Seq<u16>>,
)
    requires
        forall|k: int| 0 <= k < arg.len() ==> arg[k] != NUL,
        0 <= run <= j <= arg.len(),
        forall|k: int| j - run <= k < j ==> arg[k] == BACKSLASH,
        0 <= base,
        base + quoted_prefix(arg, arg.len() as int).len() + 1 < line.len(),
        forall|m: int|
            0 <= m < quoted_prefix(arg, arg.len() as int).len() ==> line[base + m] == quoted_prefix(
                arg,
                arg.len() as int,
            )[m],
        line[base + quoted_prefix(arg, arg.len() as int).len()] == QUOTE,
        line[base + quoted_prefix(arg, arg.len() as int).len() + 1] != QUOTE,
    ensures
        read_from(
            line,
            base + quoted_prefix(arg, j).len(),
            Reader {
                done: done,
                cur: arg.take(j - run),
                pending: if before_quote(arg, j) {
                    (2 * run) as nat
                } else {
                    run as nat
                },
                in_arg: true,
                in_quotes: true,
            },
        ) == read_from(
            line,
            base + quoted_prefix(arg, arg.len() as int).len() + 1,
            Reader { done: done, cur: arg, pending: 0, in_arg: true, in_quotes: false },
        ),
    decreases arg.len() - j,
{
    let whole = quoted_prefix(arg, arg.len() as int);
    let pos = base + quoted_prefix(arg, j).len();
    let pending: nat = if before_quote(arg, j) {
        (2 * run) as nat
    } else {
        run as nat
    };
    let r0 = Reader { done: done, cur: arg.take(j - run), pending: pending, in_arg: true, in_quotes: true };
    if j == arg.len() {
        assert(pending == 2 * run);
        assert(pending / 2 == run && pending % 2 == 0) by (nonlinear_arith)
            requires
                pending == 2 * run,
                run >= 0,
        ;
        assert(arg.take(j - run) + backslashes(run as nat) =~= arg);
    } else {
        lemma_quoted_prefix_grows(arg, j + 1, arg.len() as int);
        let unit = quoted_unit(arg, j);
        assert(quoted_prefix(arg, j + 1) == quoted_prefix(arg, j) + unit);
        assert forall|m: int| 0 <= m < unit.len() implies line[pos + m] == unit[m] by {
            assert(quoted_prefix(arg, j + 1)[quoted_prefix(arg, j).len() + m] == unit[m]);
            assert(line[base + (quoted_prefix(arg, j).len() + m)] == whole[quoted_prefix(
                arg,
                j,
            ).len() + m]);
        }
        if arg[j] == QUOTE {
            assert(line[pos] == unit[0]);
            assert(line[pos + 1] == unit[1]);
            assert(pending == 2 * run);
            let r1 = Reader { pending: pending + 1, ..r0 };
            assert(read_from(line, pos, r0) == read_from(line, pos + 1, r1));
            assert((pending + 1) / 2 == run && (pending + 1) % 2 == 1) by (nonlinear_arith)
                requires
                    pending == 2 * run,
                    run >= 0,
            ;
            assert((arg.take(j - run) + backslashes(run as nat)).push(QUOTE) =~= arg.take(j + 1));
            let r2 = Reader { cur: arg.take(j + 1), pending: 0, ..r0 };
            assert(read_from(line, pos + 1, r1) == read_from(line, pos + 2, r2));
            lemma_read_quoted(line, base, arg, j + 1, 0, done);
        } else if arg[j] == BACKSLASH {
            let b = before_quote(arg, j);
            assert(b == before_quote(arg, j + 1));
            assert(arg.take(j - run) == arg.take((j + 1) - (run + 1)));
            if b {
                assert(line[pos] == unit[0]);
                assert(line[pos + 1] == unit[1]);
                let r1 = Reader { pending: pending + 1, ..r0 };
                let r2 = Reader { pending: pending + 2, ..r0 };
                assert(read_from(line, pos, r0) == read_from(line, pos + 1, r1));
                assert(read_from(line, pos + 1, r1) == read_from(line, pos + 2, r2));
            } else {
                assert(line[pos] == unit[0]);
                let r1 = Reader { pending: pending + 1, ..r0 };
                assert(read_from(line, pos, r0) == read_from(line, pos + 1, r1));
            }
            lemma_read_quoted(line, base, arg, j + 1, run + 1, done);
        } else {
            assert(line[pos] == unit[0]);
            assert(!before_quote(arg, j));
            assert((arg.take(j - run) + backslashes(run as nat)).push(arg[j]) =~= arg.take(j + 1));
            let r1 = Reader { cur: arg.take(j + 1), pending: 0, ..r0 };
            assert(read_from(line, pos, r0) == read_from(line, pos + 1, r1));
            lemma_read_quoted(line, base, arg, j + 1, 0, done);
        }
    }
}

/// The first `n` arguments joined begin all the arguments joined, and a
/// space follows them there unless they are all.
proof fn lemma_join_prefix(args: Seq<Seq<u16>>, n: int)
    requires
        0 < n <= args.len(),
    ensures
        join_args(args.take(n)).len() <= join_args(args).len(),
        forall|m: int|
            0 <= m < join_args(args.take(n)).len() ==> join_args(args)[m] == join_args(
                args.take(n),
            )[m],
        n < args.len() ==> join_args(args.take(n)).len() < join_args(args).len() && join_args(
            args,
        )[join_args(args.take(n)).len() as int] == SPACE,
    decreases args.len() - n,
{
    if n == args.len() {
        assert(args.take(n) =~= args);
    } else {
        lemma_join_prefix(args, n + 1);
        assert(args.take(n + 1).drop_last() =~= args.take(n));
        assert(join_args(args.take(n + 1)) == join_args(args.take(n)) + seq![SPACE] + quote_arg(
            args[n],
        ));
        assert(join_args(args.take(n + 1))[join_args(args.take(n)).len() as int] == SPACE);
    }
}

/// Where argument `k` stands in the command line, and what follows it.
proof fn lemma_line_layout(args: Seq<Seq<u16>>, k: int)
    requires
        0 <= k < args.len(),
    ensures
        0 <= arg_start(args, k),
        arg_start(args, k) + quote_arg(args[k]).len() < command_line(args).len(),
        forall|m: int|
            0 <= m < quote_arg(args[k]).len() ==> command_line(args)[arg_start(args, k) + m]
                == quote_arg(args[k])[m],
        command_line(args)[arg_start(args, k) + quote_arg(args[k]).len()] == (if k + 1
            < args.len() {
            SPACE
        } else {
            NUL
        }),
        arg_start(args, k + 1) == arg_start(args, k) + quote_arg(args[k]).len() + 1,
{
    let s = arg_start(args, k);
    let q = quote_arg(args[k]);
    let upto = join_args(args.take(k + 1));
    lemma_join_prefix(args, k + 1);
    assert(args.take(k + 1).last() == args[k]);
    if k == 0 {
        assert(upto == q);
    } else {
        assert(args.take(k + 1).drop_last() =~= args.take(k));
        assert(upto == join_args(args.take(k)) + seq![SPACE] + q);
    }
    assert(upto.len() == s + q.len());
    assert forall|m: int| 0 <= m < q.len() implies command_line(args)[s + m] == q[m] by {
        assert(upto[s + m] == q[m]);
        assert(join_args(args)[s + m] == upto[s + m]);
    }
}

/// Reading the command line of `args` on from the opening quote of argument
/// `k`, with the arguments before it read, gives `args`.
proof fn lemma_read_args(args: Seq<Seq<u16>>, k: int)
    requires
        nul_free(args),
        0 <= k < args.len(),
    ensures
        read_from(
            command_line(args),
            arg_start(args, k),
            Reader {
                done: args.take(k),
                cur: Seq::empty(),
                pending: 0,
                in_arg: false,
                in_quotes: false,
            },
        ) == args,
    decreases args.len() - k,
{
    let line = command_line(args);
    let s = arg_start(args, k);
    let arg = args[k];
    let q = quote_arg(arg);
    let body = quoted_prefix(arg, arg.len() as int);
    let done = args.take(k);
    lemma_line_layout(args, k);
    assert(q.len() == body.len() + 2);
    assert(line[s] == QUOTE) by {
        assert(line[s + 0] == q[0]);
    }
    let r0 = Reader { done: done, cur: Seq::empty(), pending: 0, in_arg: false, in_quotes: false };
    let r1 = Reader { done: done, cur: Seq::empty(), pending: 0, in_arg: true, in_quotes: true };
    assert(Seq::<u16>::empty() + backslashes(0) =~= Seq::<u16>::empty());
    assert(read_from(line, s, r0) == read_from(line, s + 1, r1));
    assert forall|m: int| 0 <= m < body.len() implies line[s + 1 + m] == body[m] by {
        assert(line[s + (1 + m)] == q[1 + m]);
    }
    assert(line[s + 1 + body.len()] == QUOTE) by {
        assert(line[s + (1 + body.len())] == q[(1 + body.len()) as int]);
    }
    assert(arg.take(0) =~= Seq::<u16>::empty());
    lemma_read_quoted(line, s + 1, arg, 0, 0, done);
    let end = s + q.len();
    let r2 = Reader { done: done, cur: arg, pending: 0, in_arg: true, in_quotes: false };
    assert(read_from(line, s + 1, r1) == read_from(line, end, r2));
    assert(arg + backslashes(0) =~= arg);
    assert(done.push(arg) =~= args.take(k + 1));
    if k + 1 < args.len() {
        let r3 = Reader {
            done: args.take(k + 1),
            cur: Seq::empty(),
            pending: 0,
            in_arg: false,
            in_quotes: false,
        };
        assert(read_from(line, end, r2) == read_from(line, end + 1, r3));
        lemma_read_args(args, k + 1);
    } else {
        assert(args.take(k + 1) =~= args);
        assert(read_from(line, end, r2) == reader_end(r2));
    }
}

/// A started program reads from the command line of `args` exactly `args`,
/// whatever spaces, tabs, quotes and backslashes the arguments hold, as long
/// as none holds the unit that ends a native string.
pub proof fn lemma_command_line_round_trip(args: Seq<Seq<u16>>)
    requires
        nul_free(args),
    ensures
        split_args(command_line(args)) == args,
{
    if args.len() == 0 {
        assert(command_line(args)[0] == NUL);
        assert(args =~= Seq::<Seq<u16>>::empty());
    } else {
        assert(args.take(0) =~= Seq::<Seq<u16>>::empty());
        lemma_read_args(args, 0);
    }
}

} // verus!
