//! Command-line handling: the `-clean` / `-clean:full` switches, the
//! single-use `-clean-once <mask>` of the elevated relaunch, the one-shot
//! elevated helpers, and what a command-line cleanup reports.

use vstd::prelude::*;
use crate::memory::CleanResult;
use crate::text::{chars_of, push_decimal, push_str, decimal, str_is, to_lowercase, folded, is_ascii_text, ascii_lower};

verus! {

/// Command-line actions understood by the app.
#[derive(Debug, Clone, Copy, PartialEq, Eq, Structural)]
pub enum CommandLineAction {
    /// `-clean`: clean the default memory regions.
    CleanDefault,
    /// `-clean:full`: clean all memory regions.
    CleanFull,
    /// `-clean-once <mask>`: one cleanup of `mask`, as requested by an
    /// un-elevated instance that relaunched itself elevated.
    CleanOnce(u32),
    /// No action was asked for.
    NoAction,
}

/// The spellings of `-clean` (after lower-casing).
pub open spec fn is_clean_switch(s: Seq<char>) -> bool {
    s == "-clean"@ || s == "/clean"@ || s == "--clean"@
}

/// The spellings of `-clean:full` (after lower-casing).
pub open spec fn is_clean_full_switch(s: Seq<char>) -> bool {
    s == "-clean:full"@ || s == "/clean:full"@ || s == "--clean:full"@
}

/// The spellings of `-clean-once` (after lower-casing).
pub open spec fn is_clean_once_switch(s: Seq<char>) -> bool {
    s == "-clean-once"@ || s == "/clean-once"@ || s == "--clean-once"@
}

pub open spec fn is_digit(c: char) -> bool {
    '0' <= c <= '9'
}

/// The value of a string of decimal digits.
pub open spec fn digits_value(d: Seq<char>) -> nat
    decreases d.len(),
{
    if d.len() == 0 {
        0
    } else {
        digits_value(d.drop_last()) * 10 + (d.last() as nat - 48) as nat
    }
}

/// `s` without one leading `+`.
pub open spec fn unsigned_digits(s: Seq<char>) -> Seq<char> {
    if s.len() > 0 && s[0] == '+' {
        s.drop_first()
    } else {
        s
    }
}

pub open spec fn all_digits(d: Seq<char>) -> bool {
    forall|i: int| 0 <= i < d.len() ==> is_digit(#[trigger] d[i])
}

/// What `str::parse::<u32>` accepts: an optional `+`, then one or more
/// decimal digits, of a value that fits in a `u32`.
pub open spec fn parsed_u32(s: Seq<char>) -> Option<u32> {
    let d = unsigned_digits(s);
    if d.len() > 0 && all_digits(d) && digits_value(d) <= u32::MAX {
        Some(digits_value(d) as u32)
    } else {
        None
    }
}

proof fn lemma_digits_value_grows(d: Seq<char>, c: char)
    requires
        is_digit(c),
    ensures
        digits_value(d.push(c)) >= digits_value(d),
{
    assert(d.push(c).drop_last() == d);
}

proof fn lemma_too_big(d: Seq<char>, k: int)
    requires
        0 <= k <= d.len(),
        digits_value(d.take(k)) > u32::MAX,
    ensures
        (exists|i: int| 0 <= i < d.len() && !is_digit(#[trigger] d[i])) || digits_value(d)
            > u32::MAX,
    decreases d.len() - k,
{
    if k < d.len() {
        if is_digit(d[k]) {
            lemma_digits_value_grows(d.take(k), d[k]);
            assert(d.take(k + 1) == d.take(k).push(d[k]));
            lemma_too_big(d, k + 1);
        } else {
            assert(!is_digit(d[k]));
        }
    } else {
        assert(d.take(k) == d);
    }
}

/// Parse a decimal `u32` the way `str::parse::<u32>` does.
pub fn parse_u32(s: &str) -> (r: Option<u32>)
    ensures
        r == parsed_u32(s@),
{
    let chars = chars_of(s);
    let start: usize = if chars.len() > 0 && chars[0] == '+' {
        1
    } else {
        0
    };
    let ghost d = unsigned_digits(s@);
    assert(d == chars@.skip(start as int));
    if chars.len() == start {
        return None;
    }
    let mut value: u64 = 0;
    let mut i: usize = start;
    while i < chars.len()
        invariant
            start <= i <= chars.len(),
            d == chars@.skip(start as int),
            d == unsigned_digits(s@),
            forall|j: int| 0 <= j < i - start ==> is_digit(#[trigger] d[j]),
            value as nat == digits_value(d.take(i - start)),
            value <= u32::MAX,
        decreases chars.len() - i,
    {
        let c = chars[i];
        assert(d[i - start] == c);
        if !('0' <= c && c <= '9') {
            assert(!is_digit(d[i - start]));
            assert(!all_digits(d));
            assert(parsed_u32(s@) is None);
            return None;
        }
        let digit = (c as u32 - 48) as u64;
        assert(d.take(i + 1 - start) == d.take(i - start).push(c));
        assert(d.take(i + 1 - start).drop_last() == d.take(i - start));
        value = value * 10 + digit;
        if value > 0xFFFF_FFFF {
            proof {
                lemma_too_big(d, i + 1 - start);
                assert(!all_digits(d) || digits_value(d) > u32::MAX);
                assert(parsed_u32(s@) is None);
            }
            return None;
        }
        i += 1;
    }
    assert(d.take(chars.len() - start) == d);
    Some(value as u32)
}

/// The action named by the first recognised argument at or after `i`.
pub open spec fn action_from(args: Seq<Seq<char>>, i: int) -> CommandLineAction
    decreases args.len() - i,
{
    if i < 0 || i >= args.len() {
        CommandLineAction::NoAction
    } else {
        let word = folded(args[i]);
        if is_clean_switch(word) {
            CommandLineAction::CleanDefault
        } else if is_clean_full_switch(word) {
            CommandLineAction::CleanFull
        } else if is_clean_once_switch(word) && i + 1 < args.len() && parsed_u32(args[i + 1]) is Some {
            CommandLineAction::CleanOnce(parsed_u32(args[i + 1])->0)
        } else {
            action_from(args, i + 1)
        }
    }
}

/// The views of a list of string slices.
pub open spec fn arg_views(args: Seq<&str>) -> Seq<Seq<char>> {
    args.map_values(|a: &str| a@)
}

/// Parse a list of argument strings for known actions; the first recognised
/// switch decides. Switches are matched case-insensitively; a `-clean-once`
/// without a valid mask after it is ignored.
pub fn parse_args(args: &[&str]) -> (action: CommandLineAction)
    ensures
        action == action_from(arg_views(args@), 0),
{
    let ghost views = arg_views(args@);
    let mut i: usize = 0;
    while i < args.len()
        invariant
            i <= args.len(),
            views == arg_views(args@),
            views.len() == args@.len(),
            action_from(views, i as int) == action_from(views, 0),
        decreases args.len() - i,
    {
        assert(views[i as int] == args@[i as int]@);
        let lower = to_lowercase(args[i]);
        let l = lower.as_str();
        if str_is(l, "-clean") || str_is(l, "/clean") || str_is(l, "--clean") {
            return CommandLineAction::CleanDefault;
        }
        if str_is(l, "-clean:full") || str_is(l, "/clean:full") || str_is(l, "--clean:full") {
            return CommandLineAction::CleanFull;
        }
        if str_is(l, "-clean-once") || str_is(l, "/clean-once") || str_is(l, "--clean-once") {
            if i + 1 < args.len() {
                assert(views[i + 1] == args@[i + 1]@);
                if let Some(mask) = parse_u32(args[i + 1]) {
                    return CommandLineAction::CleanOnce(mask);
                }
            }
        }
        i += 1;
    }
    CommandLineAction::NoAction
}

/// The switch of the one-shot elevated cleanup.
pub const CLEAN_ONCE_SWITCH: &'static str = "-clean-once";

/// The argument of the elevated helper that creates the logon task.
pub const ENSURE_AUTOSTART_ARG: &'static str = "-ensure-autostart";

/// The argument of the elevated helper that removes the logon task.
pub const DISABLE_AUTOSTART_ARG: &'static str = "-disable-autostart";

/// The one-shot elevated helper modes, fired through the UAC `runas` verb.
#[derive(Debug, Clone, Copy, PartialEq, Eq, Structural)]
pub enum HelperMode {
    /// `-ensure-autostart`: create the silent elevated logon task.
    EnsureAutostart,
    /// `-disable-autostart`: remove the logon task.
    DisableAutostart,
    /// A normal launch.
    Normal,
}

/// Which helper mode `args` ask for: `-ensure-autostart` anywhere wins over
/// `-disable-autostart` anywhere.
pub fn helper_mode(args: &[&str]) -> (m: HelperMode)
    ensures
        m == (if arg_views(args@).contains(ENSURE_AUTOSTART_ARG@) {
            HelperMode::EnsureAutostart
        } else if arg_views(args@).contains(DISABLE_AUTOSTART_ARG@) {
            HelperMode::DisableAutostart
        } else {
            HelperMode::Normal
        }),
{
    if contains_arg(args, ENSURE_AUTOSTART_ARG) {
        HelperMode::EnsureAutostart
    } else if contains_arg(args, DISABLE_AUTOSTART_ARG) {
        HelperMode::DisableAutostart
    } else {
        HelperMode::Normal
    }
}

fn contains_arg(args: &[&str], word: &str) -> (r: bool)
    ensures
        r == arg_views(args@).contains(word@),
{
    let mut i: usize = 0;
    while i < args.len()
        invariant
            i <= args.len(),
            forall|j: int| 0 <= j < i ==> args@[j]@ != word@,
        decreases args.len() - i,
    {
        if str_is(args[i], word) {
            assert(arg_views(args@)[i as int] == word@);
            return true;
        }
        i += 1;
    }
    assert forall|j: int| 0 <= j < arg_views(args@).len() implies arg_views(args@)[j] != word@ by {
        assert(arg_views(args@)[j] == args@[j]@);
    }
    false
}

// ---------------------------------------------------------------------------
// Reporting a command-line cleanup
// ---------------------------------------------------------------------------

/// What a command-line cleanup prints and exits with.
pub struct CliReport {
    /// The line for standard output.
    pub summary: String,
    /// The line for standard error, when some region failed.
    pub failures: Option<String>,
    /// `1` when every requested region failed, else `0`.
    pub exit_code: i32,
}

/// `items` joined with `", "`.
pub open spec fn comma_joined(items: Seq<Seq<char>>) -> Seq<char>
    decreases items.len(),
{
    if items.len() == 0 {
        seq![]
    } else if items.len() == 1 {
        items[0]
    } else {
        comma_joined(items.drop_last()) + seq![',', ' '] + items.last()
    }
}

pub open spec fn string_views(v: Seq<String>) -> Seq<Seq<char>> {
    v.map_values(|s: String| s@)
}

fn join_comma(items: &Vec<String>) -> (s: String)
    ensures
        s@ == comma_joined(string_views(items@)),
{
    let ghost views = string_views(items@);
    let mut s = String::new();
    let mut i: usize = 0;
    while i < items.len()
        invariant
            i <= items.len(),
            views == string_views(items@),
            s@ == comma_joined(views.take(i as int)),
        decreases items.len() - i,
    {
        if i > 0 {
            push_str(&mut s, ", ");
        }
        push_str(&mut s, items[i].as_str());
        proof {
            assert(views.take(i + 1).drop_last() == views.take(i as int));
            assert(views.take(i + 1).last() == items@[i as int]@);
            if i == 0 {
                assert(views.take(1)[0] == items@[0]@);
            } else {
                reveal_strlit(", ");
            }
        }
        i += 1;
    }
    assert(views.take(items.len() as int) == views);
    s
}

/// The exit code of a command-line cleanup: `0` when at least one region was
/// cleaned (or nothing was requested), `1` when every requested region failed.
pub open spec fn cli_exit_code(regions: nat, failed: nat) -> i32 {
    if regions > 0 && failed >= regions {
        1
    } else {
        0
    }
}

/// What a command-line cleanup reports about `result`.
pub fn cli_report(result: &CleanResult) -> (r: CliReport)
    ensures
        r.summary@ == "Mem Reduct: cleaned "@ + decimal(
            (if result.regions@.len() >= result.failed@.len() {
                result.regions@.len() - result.failed@.len()
            } else {
                0
            }) as nat,
        ) + " region(s), freed "@ + decimal(result.freed_bytes as nat) + " bytes"@,
        result.failed@.len() == 0 ==> r.failures is None,
        result.failed@.len() > 0 ==> (r.failures matches Some(f) && f@ == "Mem Reduct: "@
            + decimal(result.failed@.len()) + " region(s) failed: "@ + comma_joined(
            string_views(result.failed@),
        )),
        r.exit_code == cli_exit_code(result.regions@.len(), result.failed@.len()),
{
    let regions = result.regions.len();
    let failed = result.failed.len();
    let cleaned = if regions >= failed {
        regions - failed
    } else {
        0
    };
    let mut summary = String::from_str("Mem Reduct: cleaned ");
    push_decimal(&mut summary, cleaned as u64);
    push_str(&mut summary, " region(s), freed ");
    push_decimal(&mut summary, result.freed_bytes);
    push_str(&mut summary, " bytes");
    let failures = if failed > 0 {
        let mut f = String::from_str("Mem Reduct: ");
        push_decimal(&mut f, failed as u64);
        push_str(&mut f, " region(s) failed: ");
        let joined = join_comma(&result.failed);
        push_str(&mut f, joined.as_str());
        Some(f)
    } else {
        None
    };
    // Only a *complete* failure is worth reporting to the caller: a partial
    // cleanup is still a successful run.
    let exit_code = if regions > 0 && failed >= regions {
        1
    } else {
        0
    };
    CliReport { summary, failures, exit_code }
}

/// The mask a command-line action cleans with the configured mask
/// `configured`: `-clean` the configured one, `-clean:full` every region,
/// `-clean-once <mask>` its own; `None` when there is nothing to clean.
pub fn cli_clean_mask(action: CommandLineAction, configured: u32) -> (m: Option<u32>)
    ensures
        m == match action {
            CommandLineAction::CleanDefault => Some(configured),
            CommandLineAction::CleanFull => Some(crate::memory::mask::ALL),
            CommandLineAction::CleanOnce(mask) => Some(mask),
            CommandLineAction::NoAction => None::<u32>,
        },
{
    match action {
        CommandLineAction::CleanDefault => Some(configured),
        CommandLineAction::CleanFull => Some(crate::memory::mask::ALL),
        CommandLineAction::CleanOnce(mask) => Some(mask),
        CommandLineAction::NoAction => None,
    }
}

proof fn lemma_digits_value_of_decimal(n: nat)
    ensures
        digits_value(decimal(n)) == n,
        all_digits(decimal(n)),
        decimal(n).len() > 0,
    decreases n,
{
    let c = crate::text::digit_char(n % 10);
    assert(c as nat == 48 + n % 10);
    if n < 10 {
        assert(decimal(n) == seq![c]);
        assert(seq![c].drop_last() =~= Seq::<char>::empty());
        assert(seq![c].last() == c);
        assert(digits_value(seq![c]) == digits_value(Seq::<char>::empty()) * 10 + (c as nat - 48) as nat);
    } else {
        lemma_digits_value_of_decimal(n / 10);
        let d = decimal(n / 10);
        assert(decimal(n) == d.push(c));
        assert(decimal(n).drop_last() =~= d);
        assert(decimal(n).last() == c);
        assert((n / 10) * 10 + n % 10 == n);
        assert(digits_value(decimal(n)) == digits_value(d) * 10 + (c as nat - 48) as nat);
        assert forall|i: int| 0 <= i < decimal(n).len() implies is_digit(#[trigger] decimal(n)[i]) by {
            if i < d.len() {
                assert(decimal(n)[i] == d[i]);
            }
        }
    }
}

/// A decimal number reads back as itself: `parse_u32` takes the spelling
/// `push_decimal` writes back to the value.
pub proof fn decimal_parses_back(n: u32)
    ensures
        parsed_u32(decimal(n as nat)) == Some(n),
{
    lemma_digits_value_of_decimal(n as nat);
    let d = decimal(n as nat);
    assert(is_digit(d[0]));
    assert(unsigned_digits(d) == d);
}

/// The one-shot elevated cleanup cleans the mask it was started for: the
/// arguments `-clean-once <mask>` of the elevated relaunch, split back by the
/// started process, are read as `CleanOnce(mask)`.
pub proof fn clean_once_relaunch_reads_back(mask: u32)
    ensures
        action_from(
            crate::elevation::argv::split_args(CLEAN_ONCE_SWITCH@ + seq![' '] + decimal(mask as nat)),
            0,
        ) == CommandLineAction::CleanOnce(mask),
{
    reveal_strlit("-clean-once");
    reveal_strlit("-clean");
    reveal_strlit("/clean");
    reveal_strlit("--clean");
    reveal_strlit("-clean:full");
    reveal_strlit("/clean:full");
    reveal_strlit("--clean:full");
    let a = CLEAN_ONCE_SWITCH@;
    let b = decimal(mask as nat);
    lemma_digits_value_of_decimal(mask as nat);
    decimal_parses_back(mask);
    assert(!crate::elevation::needs_quotes(a)) by {
        if a.contains(' ') {
            let i = choose|i: int| 0 <= i < a.len() && a[i] == ' ';
        }
        if a.contains('\t') {
            let i = choose|i: int| 0 <= i < a.len() && a[i] == '\t';
        }
        if a.contains('"') {
            let i = choose|i: int| 0 <= i < a.len() && a[i] == '"';
        }
    }
    assert(!crate::elevation::needs_quotes(b)) by {
        if b.contains(' ') {
            let i = choose|i: int| 0 <= i < b.len() && b[i] == ' ';
            assert(is_digit(b[i]));
        }
        if b.contains('\t') {
            let i = choose|i: int| 0 <= i < b.len() && b[i] == '\t';
            assert(is_digit(b[i]));
        }
        if b.contains('"') {
            let i = choose|i: int| 0 <= i < b.len() && b[i] == '"';
            assert(is_digit(b[i]));
        }
    }
    let args = seq![a, b];
    crate::elevation::argv::joined_quoted_args_read_back(args);
    assert(args.map_values(|x: Seq<char>| crate::elevation::quoted(x)) =~= args);
    assert(args.drop_last() =~= seq![a]);
    assert(crate::elevation::joined(seq![a]) == a);
    assert(args.last() == b);
    assert(crate::elevation::joined(args) == a + seq![' '] + b);
    assert(is_ascii_text(a));
    assert(a.map_values(|c: char| ascii_lower(c)) =~= a);
    assert(folded(a) == a);
    {
        assert(args[0] == a && args[1] == b);
        assert(a.len() == 11);
        assert(!is_clean_switch(a));
        assert(a[6] == '-' && "-clean:full"@[6] == ':' && "/clean:full"@.len() == 11
            && "--clean:full"@.len() == 12);
        assert(!is_clean_full_switch(a));
        assert(is_clean_once_switch(a));
        assert(action_from(args, 0) == CommandLineAction::CleanOnce(mask));
    }
}

} // verus!
