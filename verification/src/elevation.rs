//! Command lines for the elevated relaunches: the whole app is restarted
//! through the UAC `runas` verb with its own arguments quoted back together,
//! and one-shot helpers get their action on the command line.

use vstd::prelude::*;
use crate::text::{chars_of, push_char, push_decimal, push_str, decimal, string_of, str_is};
use crate::autostart::STARTUP_ARG;
use crate::single_instance::TAKEOVER_ARG;

pub mod argv;

verus! {

/// `n` backslashes.
pub open spec fn backslashes(n: nat) -> Seq<char>
    decreases n,
{
    if n == 0 {
        seq![]
    } else {
        backslashes((n - 1) as nat).push('\\')
    }
}

/// The quoted body of `s` when `k` backslashes directly precede it: each
/// backslash is kept, the backslashes before a `"` are doubled and the `"`
/// escaped, and the backslashes before the end are doubled so they cannot
/// escape the closing quote.
pub open spec fn escape_body(s: Seq<char>, k: nat) -> Seq<char>
    decreases s.len(),
{
    if s.len() == 0 {
        backslashes(k)
    } else if s[0] == '\\' {
        seq!['\\'] + escape_body(s.drop_first(), k + 1)
    } else if s[0] == '"' {
        backslashes(k) + seq!['\\', '"'] + escape_body(s.drop_first(), 0)
    } else {
        seq![s[0]] + escape_body(s.drop_first(), 0)
    }
}

/// An argument that must be wrapped in quotes to survive as one argument.
pub open spec fn needs_quotes(s: Seq<char>) -> bool {
    s.len() == 0 || s.contains(' ') || s.contains('\t') || s.contains('"')
}

/// `s` quoted by the `CommandLineToArgvW` rules.
pub open spec fn quoted(s: Seq<char>) -> Seq<char> {
    if needs_quotes(s) {
        seq!['"'] + escape_body(s, 0) + seq!['"']
    } else {
        s
    }
}

fn needs_quoting(chars: &Vec<char>) -> (r: bool)
    ensures
        r == needs_quotes(chars@),
{
    if chars.len() == 0 {
        return true;
    }
    let mut i: usize = 0;
    while i < chars.len()
        invariant
            i <= chars.len(),
            forall|j: int| 0 <= j < i ==> chars@[j] != ' ' && chars@[j] != '\t' && chars@[j] != '"',
        decreases chars.len() - i,
    {
        let c = chars[i];
        if c == ' ' || c == '\t' || c == '"' {
            assert(chars@[i as int] == c);
            return true;
        }
        i += 1;
    }
    false
}

fn push_backslashes(out: &mut String, n: usize)
    ensures
        final(out)@ == old(out)@ + backslashes(n as nat),
{
    let mut i: usize = 0;
    while i < n
        invariant
            i <= n,
            out@ == old(out)@ + backslashes(i as nat),
        decreases n - i,
    {
        push_char(out, '\\');
        i += 1;
    }
}

/// Quote a single command-line argument so it survives being joined back into a
/// command-line string (Windows `CommandLineToArgvW` rules: wrap in quotes and
/// escape embedded quotes/backslashes).
pub fn quote_arg(arg: &str) -> (q: String)
    ensures
        q@ == quoted(arg@),
{
    let chars = chars_of(arg);
    if !needs_quoting(&chars) {
        return String::from_str(arg);
    }
    let mut out = String::new();
    push_char(&mut out, '"');
    let mut count: usize = 0;
    let mut i: usize = 0;
    assert(chars@.skip(0) == chars@);
    while i < chars.len()
        invariant
            i <= chars.len(),
            count <= i,
            out@ + escape_body(chars@.skip(i as int), count as nat) == seq!['"'] + escape_body(
                chars@,
                0,
            ),
        decreases chars.len() - i,
    {
        let ghost rest = chars@.skip(i as int);
        let ch = chars[i];
        assert(rest[0] == ch);
        assert(rest.drop_first() == chars@.skip(i + 1));
        if ch == '\\' {
            count += 1;
            push_char(&mut out, '\\');
        } else if ch == '"' {
            // Double the preceding backslashes, then escape the quote.
            push_backslashes(&mut out, count);
            count = 0;
            push_char(&mut out, '\\');
            push_char(&mut out, '"');
        } else {
            count = 0;
            push_char(&mut out, ch);
        }
        i += 1;
    }
    // A trailing backslash would escape the closing quote.
    assert(chars@.skip(chars.len() as int).len() == 0);
    push_backslashes(&mut out, count);
    push_char(&mut out, '"');
    assert(chars@.skip(0) == chars@);
    out
}

/// `items` joined with single spaces.
pub open spec fn joined(items: Seq<Seq<char>>) -> Seq<char>
    decreases items.len(),
{
    if items.len() == 0 {
        seq![]
    } else if items.len() == 1 {
        items[0]
    } else {
        joined(items.drop_last()) + seq![' '] + items.last()
    }
}

/// The arguments handed on to the elevated instance: every argument of this
/// process but `-startup` and `-takeover`, each quoted.
pub open spec fn handed_on(args: Seq<Seq<char>>) -> Seq<Seq<char>>
    decreases args.len(),
{
    if args.len() == 0 {
        seq![]
    } else {
        let rest = handed_on(args.drop_last());
        let a = args.last();
        if a == STARTUP_ARG@ || a == TAKEOVER_ARG@ {
            rest
        } else {
            rest.push(quoted(a))
        }
    }
}

/// The command line of the elevated replacement instance: the process's own
/// arguments (`args`, without the program name) quoted back together, minus
/// `-startup` (the user is interacting with the window right now, so it must
/// open rather than start hidden in the tray), plus `-takeover` so that it
/// waits for this instance to exit instead of reporting a duplicate.
pub fn takeover_command_line(args: &Vec<String>) -> (line: String)
    ensures
        line@ == joined(handed_on(args@.map_values(|a: String| a@)).push(TAKEOVER_ARG@)),
{
    let ghost views = args@.map_values(|a: String| a@);
    let mut line = String::new();
    let mut first = true;
    let mut i: usize = 0;
    while i < args.len()
        invariant
            i <= args.len(),
            views == args@.map_values(|a: String| a@),
            line@ == joined(handed_on(views.take(i as int))),
            first == (handed_on(views.take(i as int)).len() == 0),
        decreases args.len() - i,
    {
        let ghost before = handed_on(views.take(i as int));
        assert(views.take(i + 1).drop_last() == views.take(i as int));
        assert(views.take(i + 1).last() == args@[i as int]@);
        let a = args[i].as_str();
        if !str_is(a, STARTUP_ARG) && !str_is(a, TAKEOVER_ARG) {
            let q = quote_arg(a);
            if !first {
                push_char(&mut line, ' ');
            }
            push_str(&mut line, q.as_str());
            first = false;
            proof {
                let after = before.push(q@);
                assert(after.drop_last() == before);
                if before.len() == 0 {
                    assert(line@ == q@);
                }
            }
        }
        i += 1;
    }
    assert(views.take(args.len() as int) == views);
    let ghost before = handed_on(views);
    if !first {
        push_char(&mut line, ' ');
    }
    push_str(&mut line, TAKEOVER_ARG);
    proof {
        let after = before.push(TAKEOVER_ARG@);
        assert(after.drop_last() == before);
    }
    line
}

/// The arguments with which this executable relaunches itself elevated (the
/// UAC `runas` verb) for a single cleanup of `mask`: `-clean-once <mask>`.
/// The elevated copy performs one cleanup and exits.
pub fn relaunch_as_admin(mask: u32) -> (args: String)
    ensures
        args@ == "-clean-once "@ + decimal(mask as nat),
{
    let mut args = String::from_str("-clean-once ");
    push_decimal(&mut args, mask as u64);
    args
}

/// The privilege required by `SystemMemoryListInformation` (emptying working
/// sets, purging the standby lists).
pub const SE_PROFILE_SINGLE_PROCESS: &'static str = "SeProfileSingleProcessPrivilege";

/// The privilege required by `SystemFileCacheInformationEx`.
pub const SE_INCREASE_QUOTA: &'static str = "SeIncreaseQuotaPrivilege";

/// The privileges the NT memory calls need, in the order they are enabled;
/// without them the calls fail with `STATUS_PRIVILEGE_NOT_HELD`.
pub fn memory_privileges() -> (v: Vec<&'static str>)
    ensures
        v@.len() == 2,
        v@[0]@ == SE_PROFILE_SINGLE_PROCESS@,
        v@[1]@ == SE_INCREASE_QUOTA@,
{
    vec![SE_PROFILE_SINGLE_PROCESS, SE_INCREASE_QUOTA]
}

/// Whether `ShellExecuteW` succeeded: it returns a value greater than 32 on
/// success.
pub fn shell_execute_succeeded(result: usize) -> (ok: bool)
    ensures
        ok == (result > 32),
{
    result > 32
}

} // verus!
