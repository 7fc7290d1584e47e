//! How the started process splits its command line back into arguments (the
//! `CommandLineToArgvW` rules for the arguments after the program name), and
//! the laws that quoting survives that split.

use vstd::prelude::*;
use crate::autostart::STARTUP_ARG;
use crate::single_instance::TAKEOVER_ARG;
use super::{backslashes, escape_body, handed_on, joined, needs_quotes, quoted};

verus! {

/// Whether `c` separates arguments outside quotes.
pub open spec fn is_blank(c: char) -> bool {
    c == ' ' || c == '\t'
}

/// Reads one argument from `s`, inside quotes when `q`, with `b` backslashes
/// read and not yet emitted. Returns the argument and what follows the blank
/// that ended it.
///
/// Backslashes are literal unless a `"` follows them: `2n` backslashes and a
/// `"` give `n` backslashes and the quote opens or closes quoting, `2n + 1`
/// give `n` backslashes and a literal `"`. Inside quotes a pair `""` gives a
/// literal `"`. A blank outside quotes ends the argument.
pub open spec fn parse_arg(s: Seq<char>, q: bool, b: nat) -> (Seq<char>, Seq<char>)
    decreases s.len(),
{
    if s.len() == 0 {
        (backslashes(b), seq![])
    } else {
        let c = s[0];
        let t = s.drop_first();
        if c == '\\' {
            parse_arg(t, q, b + 1)
        } else if c == '"' {
            if b % 2 == 0 {
                if q && t.len() > 0 && t[0] == '"' {
                    let r = parse_arg(t.drop_first(), q, 0);
                    (backslashes(b / 2) + seq!['"'] + r.0, r.1)
                } else {
                    let r = parse_arg(t, !q, 0);
                    (backslashes(b / 2) + r.0, r.1)
                }
            } else {
                let r = parse_arg(t, q, 0);
                (backslashes(b / 2) + seq!['"'] + r.0, r.1)
            }
        } else if is_blank(c) && !q {
            (backslashes(b), t)
        } else {
            let r = parse_arg(t, q, 0);
            (backslashes(b) + seq![c] + r.0, r.1)
        }
    }
}

/// What follows an argument is shorter than the text it was read from.
pub proof fn lemma_parse_arg_shrinks(s: Seq<char>, q: bool, b: nat)
    ensures
        parse_arg(s, q, b).1.len() <= s.len(),
        s.len() > 0 ==> parse_arg(s, q, b).1.len() < s.len(),
    decreases s.len(),
{
    if s.len() > 0 {
        let t = s.drop_first();
        lemma_parse_arg_shrinks(t, q, b + 1);
        lemma_parse_arg_shrinks(t, !q, 0);
        lemma_parse_arg_shrinks(t, q, 0);
        if t.len() > 0 {
            lemma_parse_arg_shrinks(t.drop_first(), q, 0);
        }
    }
}

/// The arguments of the command-line tail `s`, blanks between them skipped.
pub open spec fn split_args(s: Seq<char>) -> Seq<Seq<char>>
    decreases s.len(),
{
    if s.len() == 0 {
        seq![]
    } else if is_blank(s[0]) {
        split_args(s.drop_first())
    } else {
        let r = parse_arg(s, false, 0);
        proof {
            lemma_parse_arg_shrinks(s, false, 0);
        }
        seq![r.0] + split_args(r.1)
    }
}

proof fn lemma_backslashes_then(n: nat, x: Seq<char>, q: bool, b: nat)
    ensures
        parse_arg(backslashes(n) + x, q, b) == parse_arg(x, q, b + n),
    decreases n,
{
    if n > 0 {
        let y = seq!['\\'] + x;
        assert(backslashes(n) + x =~= backslashes((n - 1) as nat) + y);
        lemma_backslashes_then((n - 1) as nat, y, q, b);
        assert(y.drop_first() =~= x);
    } else {
        assert(backslashes(0) + x =~= x);
    }
}

proof fn lemma_backslashes_len(n: nat)
    ensures
        backslashes(n).len() == n,
        forall|i: int| 0 <= i < n ==> backslashes(n)[i] == '\\',
    decreases n,
{
    if n > 0 {
        lemma_backslashes_len((n - 1) as nat);
    }
}

/// What an argument ending at `r` leaves: `r` is empty or starts with the
/// blank that separates the next argument.
pub open spec fn ends_argument(r: Seq<char>) -> bool {
    r.len() == 0 || r[0] == ' '
}

/// What follows once the blank after an argument is read.
pub open spec fn after_blank(r: Seq<char>) -> Seq<char> {
    if r.len() == 0 {
        r
    } else {
        r.drop_first()
    }
}

proof fn lemma_end(r: Seq<char>, q: bool, b: nat)
    requires
        ends_argument(r),
        !q,
    ensures
        parse_arg(r, q, b) == (backslashes(b), after_blank(r)),
{
}

proof fn lemma_plain(s: Seq<char>, r: Seq<char>, b: nat)
    requires
        !s.contains('"'),
        !s.contains(' '),
        !s.contains('\t'),
        ends_argument(r),
    ensures
        parse_arg(s + r, false, b) == (backslashes(b) + s, after_blank(r)),
    decreases s.len(),
{
    if s.len() == 0 {
        assert(s + r =~= r);
        lemma_end(r, false, b);
        assert(backslashes(b) + s =~= backslashes(b));
    } else {
        let t = s.drop_first();
        assert((s + r).drop_first() =~= t + r);
        assert((s + r)[0] == s[0]);
        assert(!t.contains('"') && !t.contains(' ') && !t.contains('\t')) by {
            if t.contains('"') {
                let i = choose|i: int| 0 <= i < t.len() && t[i] == '"';
                assert(s[i + 1] == '"');
            }
            if t.contains(' ') {
                let i = choose|i: int| 0 <= i < t.len() && t[i] == ' ';
                assert(s[i + 1] == ' ');
            }
            if t.contains('\t') {
                let i = choose|i: int| 0 <= i < t.len() && t[i] == '\t';
                assert(s[i + 1] == '\t');
            }
        }
        assert(s[0] != '"' && s[0] != ' ' && s[0] != '\t') by {
            if s[0] == '"' {
                assert(s.contains('"'));
            }
            if s[0] == ' ' {
                assert(s.contains(' '));
            }
            if s[0] == '\t' {
                assert(s.contains('\t'));
            }
        }
        if s[0] == '\\' {
            lemma_plain(t, r, b + 1);
            assert(backslashes(b + 1) + t =~= backslashes(b) + s);
        } else {
            lemma_plain(t, r, 0);
            assert(backslashes(b) + seq![s[0]] + (backslashes(0) + t) =~= backslashes(b) + s);
        }
    }
}

proof fn lemma_escaped_empty(k: nat, r: Seq<char>)
    requires
        ends_argument(r),
    ensures
        parse_arg(escape_body(Seq::<char>::empty(), k) + seq!['"'] + r, true, k) == (
            backslashes(k),
            after_blank(r),
        ),
{
    let x = seq!['"'] + r;
    assert(escape_body(Seq::<char>::empty(), k) == backslashes(k));
    assert(escape_body(Seq::<char>::empty(), k) + seq!['"'] + r =~= backslashes(k) + x);
    lemma_backslashes_then(k, x, true, k);
    assert(x.drop_first() =~= r);
    assert(x[0] == '"');
    assert((k + k) % 2 == 0 && (k + k) / 2 == k) by (nonlinear_arith);
    lemma_end(r, false, 0);
    assert(backslashes(k) + backslashes(0) =~= backslashes(k));
}

proof fn lemma_escaped_backslash(t: Seq<char>, k: nat, r: Seq<char>)
    requires
        parse_arg(escape_body(t, k + 1) + seq!['"'] + r, true, k + 1) == (
            backslashes(k + 1) + t,
            after_blank(r),
        ),
    ensures
        parse_arg(escape_body(seq!['\\'] + t, k) + seq!['"'] + r, true, k) == (
            backslashes(k) + (seq!['\\'] + t),
            after_blank(r),
        ),
{
    let s = seq!['\\'] + t;
    assert(s.drop_first() =~= t);
    assert(s[0] == '\\');
    let rest = escape_body(t, k + 1) + seq!['"'] + r;
    assert(escape_body(s, k) + seq!['"'] + r =~= seq!['\\'] + rest);
    assert((seq!['\\'] + rest).drop_first() =~= rest);
    assert(backslashes(k + 1) + t =~= backslashes(k) + s);
}

proof fn lemma_escaped_quote(t: Seq<char>, k: nat, r: Seq<char>)
    requires
        parse_arg(escape_body(t, 0) + seq!['"'] + r, true, 0) == (
            backslashes(0) + t,
            after_blank(r),
        ),
    ensures
        parse_arg(escape_body(seq!['"'] + t, k) + seq!['"'] + r, true, k) == (
            backslashes(k) + (seq!['"'] + t),
            after_blank(r),
        ),
{
    let s = seq!['"'] + t;
    assert(s.drop_first() =~= t);
    assert(s[0] == '"');
    let rest = escape_body(t, 0) + seq!['"'] + r;
    let x = seq!['\\', '"'] + rest;
    assert(escape_body(s, k) == backslashes(k) + seq!['\\', '"'] + escape_body(t, 0));
    assert(escape_body(s, k) + seq!['"'] + r =~= backslashes(k) + x);
    lemma_backslashes_then(k, x, true, k);
    let y = seq!['"'] + rest;
    assert(x.drop_first() =~= y);
    assert(x[0] == '\\');
    assert(y.drop_first() =~= rest);
    assert(y[0] == '"');
    assert((k + k + 1) % 2 == 1 && (k + k + 1) / 2 == k) by (nonlinear_arith);
    assert(parse_arg(x, true, k + k) == parse_arg(y, true, k + k + 1));
    let p = parse_arg(rest, true, 0);
    assert(parse_arg(y, true, k + k + 1) == (backslashes(k) + seq!['"'] + p.0, p.1));
    assert(backslashes(k) + seq!['"'] + (backslashes(0) + t) =~= backslashes(k) + s);
}

proof fn lemma_escaped_other(c: char, t: Seq<char>, k: nat, r: Seq<char>)
    requires
        c != '\\',
        c != '"',
        parse_arg(escape_body(t, 0) + seq!['"'] + r, true, 0) == (
            backslashes(0) + t,
            after_blank(r),
        ),
    ensures
        parse_arg(escape_body(seq![c] + t, k) + seq!['"'] + r, true, k) == (
            backslashes(k) + (seq![c] + t),
            after_blank(r),
        ),
{
    let s = seq![c] + t;
    assert(s.drop_first() =~= t);
    assert(s[0] == c);
    let rest = escape_body(t, 0) + seq!['"'] + r;
    assert(escape_body(s, k) + seq!['"'] + r =~= seq![c] + rest);
    assert((seq![c] + rest).drop_first() =~= rest);
    assert(backslashes(k) + seq![c] + (backslashes(0) + t) =~= backslashes(k) + s);
}

proof fn lemma_escaped(s: Seq<char>, k: nat, r: Seq<char>)
    requires
        ends_argument(r),
    ensures
        parse_arg(escape_body(s, k) + seq!['"'] + r, true, k) == (backslashes(k) + s, after_blank(
            r,
        )),
    decreases s.len(),
{
    if s.len() == 0 {
        lemma_escaped_empty(k, r);
        assert(backslashes(k) + s =~= backslashes(k));
    } else {
        let t = s.drop_first();
        let c = s[0];
        assert(s =~= seq![c] + t);
        if c == '\\' {
            lemma_escaped(t, k + 1, r);
            lemma_escaped_backslash(t, k, r);
        } else if c == '"' {
            lemma_escaped(t, 0, r);
            lemma_escaped_quote(t, k, r);
        } else {
            lemma_escaped(t, 0, r);
            lemma_escaped_other(c, t, k, r);
        }
    }
}

/// A quoted argument reads back as itself: whatever `s` holds (blanks,
/// quotes, backslashes, nothing at all), the first argument read from
/// `quoted(s)` followed by the end of the line or by a blank and more is `s`,
/// and reading goes on right after that blank.
pub proof fn quoted_arg_reads_back(s: Seq<char>, r: Seq<char>)
    requires
        ends_argument(r),
    ensures
        parse_arg(quoted(s) + r, false, 0) == (s, after_blank(r)),
{
    if needs_quotes(s) {
        let x = escape_body(s, 0) + seq!['"'] + r;
        assert(quoted(s) + r =~= seq!['"'] + x);
        assert((seq!['"'] + x).drop_first() =~= x);
        lemma_escaped(s, 0, r);
        assert(backslashes(0) + s =~= s);
        assert(backslashes(0) + (backslashes(0) + s) =~= s);
    } else {
        lemma_plain(s, r, 0);
        assert(backslashes(0) + s =~= s);
    }
}

proof fn lemma_quoted_starts(s: Seq<char>)
    ensures
        quoted(s).len() > 0,
        !is_blank(quoted(s)[0]),
{
    if !needs_quotes(s) {
        assert(s.len() > 0);
        if is_blank(s[0]) {
            assert(s.contains(s[0]));
        }
    }
}

proof fn lemma_joined_first(items: Seq<Seq<char>>)
    requires
        items.len() >= 2,
    ensures
        joined(items) == items[0] + seq![' '] + joined(items.drop_first()),
    decreases items.len(),
{
    let dl = items.drop_last();
    let df = items.drop_first();
    assert(joined(items) == joined(dl) + seq![' '] + items.last());
    if items.len() > 2 {
        lemma_joined_first(dl);
        assert(dl.drop_first() =~= df.drop_last());
        assert(df.last() == items.last());
        assert(dl[0] == items[0]);
        assert(joined(df) == joined(df.drop_last()) + seq![' '] + df.last());
        assert(dl[0] + seq![' '] + joined(dl.drop_first()) + seq![' '] + items.last() =~= items[0]
            + seq![' '] + (joined(df.drop_last()) + seq![' '] + df.last()));
    } else {
        assert(df.len() == 1);
        assert(dl.len() == 1);
        assert(df[0] == items.last());
        assert(dl[0] == items[0]);
        assert(joined(dl) == items[0]);
        assert(joined(df) == items.last());
    }
}

/// Quoting each argument and joining them with spaces loses nothing: the
/// line reads back as exactly the arguments that were quoted.
pub proof fn joined_quoted_args_read_back(args: Seq<Seq<char>>)
    ensures
        split_args(joined(args.map_values(|a: Seq<char>| quoted(a)))) == args,
    decreases args.len(),
{
    let qs = args.map_values(|a: Seq<char>| quoted(a));
    if args.len() == 0 {
        assert(split_args(joined(qs)) =~= args);
    } else if args.len() == 1 {
        let line = joined(qs);
        assert(line == quoted(args[0]));
        lemma_quoted_starts(args[0]);
        quoted_arg_reads_back(args[0], seq![]);
        assert(quoted(args[0]) + seq![] =~= quoted(args[0]));
        assert(split_args(Seq::<char>::empty()) =~= Seq::<Seq<char>>::empty());
        assert(split_args(line) =~= args);
    } else {
        let tail = args.drop_first();
        let qt = tail.map_values(|a: Seq<char>| quoted(a));
        assert(qs.drop_first() =~= qt);
        lemma_joined_first(qs);
        let rest = joined(qt);
        let line = joined(qs);
        assert(line == quoted(args[0]) + (seq![' '] + rest));
        assert(quoted(args[0]) + seq![' '] + rest =~= quoted(args[0]) + (seq![' '] + rest));
        lemma_quoted_starts(args[0]);
        quoted_arg_reads_back(args[0], seq![' '] + rest);
        assert((seq![' '] + rest).drop_first() =~= rest);
        assert(line[0] == quoted(args[0])[0]);
        joined_quoted_args_read_back(tail);
        assert(seq![args[0]] + tail =~= args);
    }
}

/// The arguments of this process that are handed on to the elevated instance.
pub open spec fn kept_args(args: Seq<Seq<char>>) -> Seq<Seq<char>>
    decreases args.len(),
{
    if args.len() == 0 {
        seq![]
    } else {
        let rest = kept_args(args.drop_last());
        let a = args.last();
        if a == STARTUP_ARG@ || a == TAKEOVER_ARG@ {
            rest
        } else {
            rest.push(a)
        }
    }
}

proof fn lemma_handed_on_quotes_kept(args: Seq<Seq<char>>)
    ensures
        handed_on(args) == kept_args(args).map_values(|a: Seq<char>| quoted(a)),
    decreases args.len(),
{
    if args.len() > 0 {
        lemma_handed_on_quotes_kept(args.drop_last());
        let k = kept_args(args.drop_last());
        let a = args.last();
        assert(k.push(a).map_values(|x: Seq<char>| quoted(x)) =~= k.map_values(
            |x: Seq<char>| quoted(x),
        ).push(quoted(a)));
    } else {
        assert(kept_args(args).map_values(|a: Seq<char>| quoted(a)) =~= Seq::<Seq<char>>::empty());
    }
}

/// The elevated replacement reads its command line back as the arguments of
/// this process without `-startup` and `-takeover`, followed by `-takeover`.
pub proof fn takeover_line_reads_back(args: Seq<Seq<char>>)
    ensures
        split_args(joined(handed_on(args).push(TAKEOVER_ARG@))) == kept_args(args).push(
            TAKEOVER_ARG@,
        ),
{
    reveal_strlit("-takeover");
    let all = kept_args(args).push(TAKEOVER_ARG@);
    lemma_handed_on_quotes_kept(args);
    assert(!needs_quotes(TAKEOVER_ARG@)) by {
        if TAKEOVER_ARG@.contains(' ') {
            let i = choose|i: int| 0 <= i < TAKEOVER_ARG@.len() && TAKEOVER_ARG@[i] == ' ';
        }
        if TAKEOVER_ARG@.contains('\t') {
            let i = choose|i: int| 0 <= i < TAKEOVER_ARG@.len() && TAKEOVER_ARG@[i] == '\t';
        }
        if TAKEOVER_ARG@.contains('"') {
            let i = choose|i: int| 0 <= i < TAKEOVER_ARG@.len() && TAKEOVER_ARG@[i] == '"';
        }
    }
    assert(handed_on(args).push(TAKEOVER_ARG@) =~= all.map_values(|a: Seq<char>| quoted(a)));
    joined_quoted_args_read_back(all);
}

} // verus!
