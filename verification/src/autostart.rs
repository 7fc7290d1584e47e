//! Silent autostart + permanent elevation via Windows Task Scheduler.
//!
//! The scheduled task "Mem Reduct" runs at user logon with highest privileges
//! (`HighestAvailable`), so the app starts silently as administrator on every
//! boot with no UAC prompt.
//!
//! `schtasks /create` cannot express a correct logon task for a long-running
//! tray app (its battery and 72-hour execution-limit defaults kill it), so the
//! task is defined by an XML document, written as UTF-16LE with a BOM: the
//! encoding `schtasks` itself emits and the one it accepts.
//!
//! Whether the existing task is *ours* is decided from the executable path the
//! task was created for, recorded alongside it, compared the way the shell
//! compares paths.

use vstd::prelude::*;
use crate::text::{chars_of, push_char, push_str, push_decimal, push_signed_decimal, string_of, to_lowercase, folded, decimal, signed_decimal, utf16, utf16_units};
use crate::registry::{
    APP_SUBKEY, MAX_VALUE_UNITS, REG_SZ, StringWrite, read_back, read_gives_back_written,
    registry_value, units_of_le_bytes, value_from_buffer, wide_units,
};

verus! {

/// `CREATE_NO_WINDOW`: never show a console window for schtasks.
pub const CREATE_NO_WINDOW: u32 = 0x0800_0000;

/// The scheduled task name.
pub const TASK_NAME: &'static str = "Mem Reduct";

/// The argument the task passes so the app knows it was launched at startup
/// (used to start minimized to the tray instead of opening the window).
pub const STARTUP_ARG: &'static str = "-startup";

/// `HKCU` value holding the executable path the task was created for.
pub const TARGET_VALUE: &'static str = "Autostart Target";

/// `HKCU` value carrying the outstanding acknowledgement of an elevated helper.
pub const RESULT_VALUE: &'static str = "Autostart Result";

/// Marker written before the elevated helper is launched. The helper overwrites
/// it with [`RESULT_OK`] or a `failed:…` string, so a reader that still sees
/// this value knows the helper has not reported yet.
pub const RESULT_PENDING: &'static str = "pending";

/// Written by the helper (or directly by the app) once the task was changed.
pub const RESULT_OK: &'static str = "ok";

// ---------------------------------------------------------------------------
// Comparing paths
// ---------------------------------------------------------------------------

/// The `\\?\` prefix `canonicalize` may add.
pub open spec fn long_path_prefix() -> Seq<char> {
    seq!['\\', '\\', '?', '\\']
}

/// `s` without any leading `\\?\` prefixes (`trim_start_matches`).
pub open spec fn strip_long_prefix(s: Seq<char>) -> Seq<char>
    decreases s.len(),
{
    if s.len() >= 4 && s.take(4) == long_path_prefix() {
        strip_long_prefix(s.skip(4))
    } else {
        s
    }
}

/// `s` with every `/` turned into `\`.
pub open spec fn backslashed(s: Seq<char>) -> Seq<char> {
    s.map_values(|c: char| if c == '/' { '\\' } else { c })
}

/// `s` without trailing `\` (`trim_end_matches`).
pub open spec fn strip_trailing_backslashes(s: Seq<char>) -> Seq<char>
    decreases s.len(),
{
    if s.len() > 0 && s.last() == '\\' {
        strip_trailing_backslashes(s.drop_last())
    } else {
        s
    }
}

/// The form in which two paths are compared.
pub open spec fn normalized_path(s: Seq<char>) -> Seq<char> {
    folded(strip_trailing_backslashes(backslashed(strip_long_prefix(s))))
}

/// Whether `a` and `b` name the same file the way the shell sees it.
pub open spec fn same_path_spec(a: Seq<char>, b: Seq<char>) -> bool {
    a.len() > 0 && normalized_path(a) == normalized_path(b)
}

/// Path comparison is an equivalence on non-empty paths: every path is the
/// same as itself, in either order, and sameness carries over.
pub proof fn same_path_is_an_equivalence(a: Seq<char>, b: Seq<char>, c: Seq<char>)
    ensures
        a.len() > 0 ==> same_path_spec(a, a),
        same_path_spec(a, b) && b.len() > 0 ==> same_path_spec(b, a),
        same_path_spec(a, b) && same_path_spec(b, c) ==> same_path_spec(a, c),
{
}

fn starts_with_long_prefix(s: &Vec<char>, i: usize) -> (r: bool)
    requires
        i <= s.len(),
    ensures
        r == (s@.skip(i as int).len() >= 4 && s@.skip(i as int).take(4) == long_path_prefix()),
{
    if s.len() - i < 4 {
        return false;
    }
    let r = s[i] == '\\' && s[i + 1] == '\\' && s[i + 2] == '?' && s[i + 3] == '\\';
    let ghost t = s@.skip(i as int).take(4);
    assert(t[0] == s@[i as int] && t[1] == s@[i + 1] && t[2] == s@[i + 2] && t[3] == s@[i + 3]);
    if r {
        assert(t =~= long_path_prefix());
    }
    r
}

/// The path in the form in which paths are compared, before case folding.
fn path_key(path: &str) -> (key: String)
    ensures
        key@ == strip_trailing_backslashes(backslashed(strip_long_prefix(path@))),
{
    let s = chars_of(path);
    let mut i: usize = 0;
    assert(s@.skip(0) == s@);
    while starts_with_long_prefix(&s, i)
        invariant
            i <= s.len(),
            strip_long_prefix(s@.skip(i as int)) == strip_long_prefix(s@),
        decreases s.len() - i,
    {
        assert(s@.skip(i as int).skip(4) == s@.skip(i + 4));
        i += 4;
    }
    assert(strip_long_prefix(s@.skip(i as int)) == s@.skip(i as int));
    let ghost stripped = s@.skip(i as int);
    let mut out: Vec<char> = Vec::new();
    let mut j: usize = i;
    while j < s.len()
        invariant
            i <= j <= s.len(),
            stripped == s@.skip(i as int),
            out@ == backslashed(stripped.take(j - i)),
        decreases s.len() - j,
    {
        let c = s[j];
        out.push(if c == '/' {
            '\\'
        } else {
            c
        });
        assert(backslashed(stripped.take(j + 1 - i)) =~= backslashed(stripped.take(j - i)).push(
            if c == '/' {
                '\\'
            } else {
                c
            },
        ));
        j += 1;
    }
    assert(stripped.take(s.len() - i) == stripped);
    let ghost replaced = out@;
    let mut k: usize = out.len();
    assert(replaced.take(out.len() as int) == replaced);
    while k > 0 && out[k - 1] == '\\'
        invariant
            k <= out.len(),
            out@ == replaced,
            strip_trailing_backslashes(replaced.take(k as int)) == strip_trailing_backslashes(
                replaced,
            ),
        decreases k,
    {
        assert(replaced.take(k as int).drop_last() == replaced.take(k - 1));
        k -= 1;
    }
    assert(replaced.take(out.len() as int) == replaced);
    let mut key_chars: Vec<char> = Vec::new();
    let mut p: usize = 0;
    while p < k
        invariant
            p <= k <= out.len(),
            key_chars@ == out@.take(p as int),
        decreases k - p,
    {
        key_chars.push(out[p]);
        assert(out@.take(p + 1) == out@.take(p as int).push(out@[p as int]));
        p += 1;
    }
    string_of(&key_chars)
}

/// Compare two Windows paths the way the shell would: case-insensitively, with
/// either separator, and ignoring the `\\?\` prefix `canonicalize` may add.
/// An empty `a` (an absent record) never matches.
pub fn same_path(a: &str, b: &str) -> (r: bool)
    ensures
        r == same_path_spec(a@, b@),
{
    let a_chars = chars_of(a);
    if a_chars.len() == 0 {
        return false;
    }
    let ka = path_key(a);
    let kb = path_key(b);
    let la = to_lowercase(ka.as_str());
    let lb = to_lowercase(kb.as_str());
    la == lb
}

/// What [`task_state`] found.
#[derive(Debug, Clone, PartialEq, Eq, Structural)]
pub struct TaskState {
    /// The task exists *and* was created for this executable.
    pub enabled: bool,
    /// The task exists but is not ours — a leftover from an install into another
    /// directory, or a same-named task from a different program.
    pub stale: bool,
}

/// Classify the existing logon task from whether a task of that name exists,
/// the executable path recorded when it was created, and the path of this
/// executable.
pub fn task_state(task_exists: bool, recorded: Option<String>, current_exe: Option<String>) -> (s:
    TaskState)
    ensures
        !task_exists ==> !s.enabled && !s.stale,
        task_exists ==> s.stale == !s.enabled,
        task_exists ==> (s.enabled <==> (recorded matches Some(r) && current_exe matches Some(e)
            && same_path_spec(r@, e@))),
{
    if !task_exists {
        return TaskState { enabled: false, stale: false };
    }
    let ours = match (&recorded, &current_exe) {
        (Some(r), Some(e)) => same_path(r.as_str(), e.as_str()),
        _ => false,
    };
    TaskState { enabled: ours, stale: !ours }
}

// ---------------------------------------------------------------------------
// The task definition
// ---------------------------------------------------------------------------

/// What one character becomes in XML text.
pub open spec fn xml_escaped_char(c: char) -> Seq<char> {
    if c == '&' {
        "&amp;"@
    } else if c == '<' {
        "&lt;"@
    } else if c == '>' {
        "&gt;"@
    } else if c == '"' {
        "&quot;"@
    } else if c == '\'' {
        "&apos;"@
    } else {
        seq![c]
    }
}

/// `s` with the five XML metacharacters replaced by entities.
pub open spec fn xml_escaped(s: Seq<char>) -> Seq<char>
    decreases s.len(),
{
    if s.len() == 0 {
        seq![]
    } else {
        xml_escaped(s.drop_last()) + xml_escaped_char(s.last())
    }
}

/// Escape the five characters that cannot appear literally in XML text.
pub fn xml_escape(s: &str) -> (out: String)
    ensures
        out@ == xml_escaped(s@),
{
    let chars = chars_of(s);
    let mut out = String::new();
    let mut i: usize = 0;
    while i < chars.len()
        invariant
            i <= chars.len(),
            out@ == xml_escaped(chars@.take(i as int)),
        decreases chars.len() - i,
    {
        let ch = chars[i];
        if ch == '&' {
            push_str(&mut out, "&amp;");
        } else if ch == '<' {
            push_str(&mut out, "&lt;");
        } else if ch == '>' {
            push_str(&mut out, "&gt;");
        } else if ch == '"' {
            push_str(&mut out, "&quot;");
        } else if ch == '\'' {
            push_str(&mut out, "&apos;");
        } else {
            push_char(&mut out, ch);
        }
        assert(chars@.take(i + 1).drop_last() == chars@.take(i as int));
        assert(chars@.take(i + 1).last() == ch);
        i += 1;
    }
    assert(chars@.take(chars.len() as int) == chars@);
    out
}

/// Escaped text holds none of `<`, `>`, `"` and `'` (that every `&` in it
/// starts an entity is part of [`xml_escape_reads_back`]).
pub proof fn xml_escape_removes_metacharacters(s: Seq<char>)
    ensures
        forall|i: int|
            0 <= i < xml_escaped(s).len() ==> {
                let c = #[trigger] xml_escaped(s)[i];
                c != '<' && c != '>' && c != '"' && c != '\''
            },
    decreases s.len(),
{
    reveal_strlit("&amp;");
    reveal_strlit("&lt;");
    reveal_strlit("&gt;");
    reveal_strlit("&quot;");
    reveal_strlit("&apos;");
    if s.len() > 0 {
        xml_escape_removes_metacharacters(s.drop_last());
        let a = xml_escaped(s.drop_last());
        let b = xml_escaped_char(s.last());
        assert forall|i: int| 0 <= i < xml_escaped(s).len() implies {
            let c = #[trigger] xml_escaped(s)[i];
            c != '<' && c != '>' && c != '"' && c != '\''
        } by {
            if i < a.len() {
                assert(xml_escaped(s)[i] == a[i]);
            } else {
                assert(xml_escaped(s)[i] == b[i - a.len()]);
            }
        }
    }
}

/// Whether `t` begins with `p`.
pub open spec fn begins_with(t: Seq<char>, p: Seq<char>) -> bool {
    p.len() <= t.len() && t.take(p.len() as int) == p
}

pub open spec fn amp_entity() -> Seq<char> {
    seq!['&', 'a', 'm', 'p', ';']
}

pub open spec fn lt_entity() -> Seq<char> {
    seq!['&', 'l', 't', ';']
}

pub open spec fn gt_entity() -> Seq<char> {
    seq!['&', 'g', 't', ';']
}

pub open spec fn quot_entity() -> Seq<char> {
    seq!['&', 'q', 'u', 'o', 't', ';']
}

pub open spec fn apos_entity() -> Seq<char> {
    seq!['&', 'a', 'p', 'o', 's', ';']
}

/// Whether `t` begins with one of the five entities.
pub open spec fn starts_entity(t: Seq<char>) -> bool {
    ||| begins_with(t, amp_entity())
    ||| begins_with(t, lt_entity())
    ||| begins_with(t, gt_entity())
    ||| begins_with(t, quot_entity())
    ||| begins_with(t, apos_entity())
}

/// `t` with the five entities, read left to right, replaced by the
/// characters they stand for.
pub open spec fn xml_unescaped(t: Seq<char>) -> Seq<char>
    decreases t.len(),
{
    if t.len() == 0 {
        seq![]
    } else if begins_with(t, amp_entity()) {
        seq!['&'] + xml_unescaped(t.skip(5))
    } else if begins_with(t, lt_entity()) {
        seq!['<'] + xml_unescaped(t.skip(4))
    } else if begins_with(t, gt_entity()) {
        seq!['>'] + xml_unescaped(t.skip(4))
    } else if begins_with(t, quot_entity()) {
        seq!['"'] + xml_unescaped(t.skip(6))
    } else if begins_with(t, apos_entity()) {
        seq!['\''] + xml_unescaped(t.skip(6))
    } else {
        seq![t[0]] + xml_unescaped(t.drop_first())
    }
}

proof fn lemma_entities()
    ensures
        "&amp;"@ == amp_entity(),
        "&lt;"@ == lt_entity(),
        "&gt;"@ == gt_entity(),
        "&quot;"@ == quot_entity(),
        "&apos;"@ == apos_entity(),
{
    reveal_strlit("&amp;");
    reveal_strlit("&lt;");
    reveal_strlit("&gt;");
    reveal_strlit("&quot;");
    reveal_strlit("&apos;");
    assert("&amp;"@ =~= amp_entity());
    assert("&lt;"@ =~= lt_entity());
    assert("&gt;"@ =~= gt_entity());
    assert("&quot;"@ =~= quot_entity());
    assert("&apos;"@ =~= apos_entity());
}

proof fn lemma_xml_escaped_first(s: Seq<char>)
    requires
        s.len() > 0,
    ensures
        xml_escaped(s) == xml_escaped_char(s[0]) + xml_escaped(s.drop_first()),
    decreases s.len(),
{
    let dl = s.drop_last();
    let df = s.drop_first();
    assert(xml_escaped(s) == xml_escaped(dl) + xml_escaped_char(s.last()));
    if s.len() > 1 {
        lemma_xml_escaped_first(dl);
        assert(dl.drop_first() =~= df.drop_last());
        assert(df.last() == s.last());
        assert(dl[0] == s[0]);
        assert(xml_escaped(df) == xml_escaped(df.drop_last()) + xml_escaped_char(df.last()));
        assert(xml_escaped_char(s[0]) + xml_escaped(dl.drop_first()) + xml_escaped_char(s.last())
            =~= xml_escaped_char(s[0]) + (xml_escaped(df.drop_last()) + xml_escaped_char(
            df.last(),
        )));
    } else {
        assert(dl.len() == 0 && df.len() == 0);
        assert(s.last() == s[0]);
        assert(xml_escaped(dl) == Seq::<char>::empty());
        assert(xml_escaped(df) == Seq::<char>::empty());
        assert(Seq::<char>::empty() + xml_escaped_char(s[0]) =~= xml_escaped_char(s[0]) + Seq::<
            char,
        >::empty());
    }
}

proof fn lemma_unescape_one(c: char, rest: Seq<char>)
    ensures
        xml_unescaped(xml_escaped_char(c) + rest) == seq![c] + xml_unescaped(rest),
{
    lemma_entities();
    let t = xml_escaped_char(c) + rest;
    if c == '&' {
        assert(t.take(5) =~= amp_entity());
        assert(t.skip(5) =~= rest);
    } else if c == '<' {
        assert(t.take(4) =~= lt_entity());
        assert(t.skip(4) =~= rest);
        assert(!begins_with(t, amp_entity())) by {
            if begins_with(t, amp_entity()) {
                assert(t.take(5)[1] == t[1]);
            }
        }
    } else if c == '>' {
        assert(t.take(4) =~= gt_entity());
        assert(t.skip(4) =~= rest);
        assert(!begins_with(t, amp_entity())) by {
            if begins_with(t, amp_entity()) {
                assert(t.take(5)[1] == t[1]);
            }
        }
        assert(!begins_with(t, lt_entity())) by {
            if begins_with(t, lt_entity()) {
                assert(t.take(4)[1] == t[1]);
            }
        }
    } else if c == '"' {
        assert(t.take(6) =~= quot_entity());
        assert(t.skip(6) =~= rest);
        assert(!begins_with(t, amp_entity())) by {
            if begins_with(t, amp_entity()) {
                assert(t.take(5)[1] == t[1]);
            }
        }
        assert(!begins_with(t, lt_entity())) by {
            if begins_with(t, lt_entity()) {
                assert(t.take(4)[1] == t[1]);
            }
        }
        assert(!begins_with(t, gt_entity())) by {
            if begins_with(t, gt_entity()) {
                assert(t.take(4)[1] == t[1]);
            }
        }
    } else if c == '\'' {
        assert(t.take(6) =~= apos_entity());
        assert(t.skip(6) =~= rest);
        assert(!begins_with(t, amp_entity())) by {
            if begins_with(t, amp_entity()) {
                assert(t.take(5)[2] == t[2]);
            }
        }
        assert(!begins_with(t, lt_entity())) by {
            if begins_with(t, lt_entity()) {
                assert(t.take(4)[1] == t[1]);
            }
        }
        assert(!begins_with(t, gt_entity())) by {
            if begins_with(t, gt_entity()) {
                assert(t.take(4)[1] == t[1]);
            }
        }
        assert(!begins_with(t, quot_entity())) by {
            if begins_with(t, quot_entity()) {
                assert(t.take(6)[1] == t[1]);
            }
        }
    } else {
        assert(t[0] == c);
        assert(t.drop_first() =~= rest);
        assert(!starts_entity(t)) by {
            if begins_with(t, amp_entity()) {
                assert(t.take(5)[0] == t[0]);
            }
            if begins_with(t, lt_entity()) {
                assert(t.take(4)[0] == t[0]);
            }
            if begins_with(t, gt_entity()) {
                assert(t.take(4)[0] == t[0]);
            }
            if begins_with(t, quot_entity()) {
                assert(t.take(6)[0] == t[0]);
            }
            if begins_with(t, apos_entity()) {
                assert(t.take(6)[0] == t[0]);
            }
        }
    }
}

/// Escaping reads back: replacing the entities of the escaped text, left to
/// right, by the characters they stand for gives back `s` exactly; and every
/// `&` of the escaped text starts one of the five entities.
pub proof fn xml_escape_reads_back(s: Seq<char>)
    ensures
        xml_unescaped(xml_escaped(s)) == s,
        forall|i: int|
            0 <= i < xml_escaped(s).len() && #[trigger] xml_escaped(s)[i] == '&' ==> starts_entity(
                xml_escaped(s).skip(i),
            ),
    decreases s.len(),
{
    lemma_entities();
    if s.len() == 0 {
        assert(xml_escaped(s) == Seq::<char>::empty());
        assert(s =~= Seq::<char>::empty());
    } else {
        let tail = s.drop_first();
        let e = xml_escaped_char(s[0]);
        lemma_xml_escaped_first(s);
        xml_escape_reads_back(tail);
        lemma_unescape_one(s[0], xml_escaped(tail));
        assert(seq![s[0]] + tail =~= s);
        let t = xml_escaped(s);
        assert forall|i: int| 0 <= i < t.len() && #[trigger] t[i] == '&' implies starts_entity(
            t.skip(i),
        ) by {
            if i < e.len() {
                assert(t[i] == e[i]);
                assert(i == 0);
                assert(t.skip(0) =~= t);
                assert(t.take(e.len() as int) =~= e);
            } else {
                let j = i - e.len();
                assert(t[i] == xml_escaped(tail)[j]);
                assert(t.skip(i) =~= xml_escaped(tail).skip(j));
            }
        }
    }
}

/// The definition up to the task's URI.
pub const XML_HEAD: &'static str = "<?xml version=\"1.0\" encoding=\"UTF-16\"?>\n<Task version=\"1.2\" xmlns=\"http://schemas.microsoft.com/windows/2004/02/mit/task\">\n  <RegistrationInfo>\n    <Description>Mem Reduct autostart: starts elevated and silent at logon. Managed by the app.</Description>\n    <URI>\\";

/// From the URI to the principal's user.
pub const XML_PRINCIPAL: &'static str = "</URI>\n  </RegistrationInfo>\n  <Principals>\n    <Principal id=\"Author\">\n      <UserId>";

/// From the principal's user to the trigger's user: no battery conditions, no
/// execution time limit, a missed start runs later.
pub const XML_SETTINGS: &'static str = "</UserId>\n      <LogonType>InteractiveToken</LogonType>\n      <RunLevel>HighestAvailable</RunLevel>\n    </Principal>\n  </Principals>\n  <Settings>\n    <MultipleInstancesPolicy>IgnoreNew</MultipleInstancesPolicy>\n    <DisallowStartIfOnBatteries>false</DisallowStartIfOnBatteries>\n    <StopIfGoingOnBatteries>false</StopIfGoingOnBatteries>\n    <AllowHardTerminate>false</AllowHardTerminate>\n    <StartWhenAvailable>true</StartWhenAvailable>\n    <ExecutionTimeLimit>PT0S</ExecutionTimeLimit>\n    <Enabled>true</Enabled>\n  </Settings>\n  <Triggers>\n    <LogonTrigger>\n      <Enabled>true</Enabled>\n      <UserId>";

/// From the trigger's user to the command.
pub const XML_ACTION: &'static str = "</UserId>\n    </LogonTrigger>\n  </Triggers>\n  <Actions Context=\"Author\">\n    <Exec>\n      <Command>\"";

/// From the command to its arguments.
pub const XML_ARGUMENTS: &'static str = "\"</Command>\n      <Arguments>";

/// The end of the definition.
pub const XML_TAIL: &'static str = "</Arguments>\n    </Exec>\n  </Actions>\n</Task>\n";

/// The task definition for `exe_path`, scoped to the user `sid`.
pub open spec fn task_definition(exe_path: Seq<char>, sid: Seq<char>) -> Seq<char> {
    XML_HEAD@ + xml_escaped(TASK_NAME@) + XML_PRINCIPAL@ + xml_escaped(sid) + XML_SETTINGS@
        + xml_escaped(sid) + XML_ACTION@ + xml_escaped(exe_path) + XML_ARGUMENTS@ + STARTUP_ARG@
        + XML_TAIL@
}

/// The complete task definition handed to `schtasks /create /xml`.
///
/// `sid` scopes both the principal and the logon trigger to the current user:
/// without it the trigger fires for *any* user's logon and Task Scheduler then
/// logs a failure every time somebody else signs in.
pub fn task_xml(exe_path: &str, sid: &str) -> (xml: String)
    ensures
        xml@ == task_definition(exe_path@, sid@),
{
    let exe = xml_escape(exe_path);
    let sid = xml_escape(sid);
    let name = xml_escape(TASK_NAME);
    let mut xml = String::from_str(XML_HEAD);
    push_str(&mut xml, name.as_str());
    push_str(&mut xml, XML_PRINCIPAL);
    push_str(&mut xml, sid.as_str());
    push_str(&mut xml, XML_SETTINGS);
    push_str(&mut xml, sid.as_str());
    push_str(&mut xml, XML_ACTION);
    push_str(&mut xml, exe.as_str());
    push_str(&mut xml, XML_ARGUMENTS);
    push_str(&mut xml, STARTUP_ARG);
    push_str(&mut xml, XML_TAIL);
    xml
}

/// Little-endian bytes of UTF-16 code units.
pub open spec fn utf16le(units: Seq<u16>) -> Seq<u8>
    decreases units.len(),
{
    if units.len() == 0 {
        seq![]
    } else {
        utf16le(units.drop_last()) + seq![
            (units.last() % 256) as u8,
            (units.last() / 256) as u8,
        ]
    }
}

/// Appends the little-endian bytes of `units`.
pub fn push_utf16le(out: &mut Vec<u8>, units: &Vec<u16>)
    ensures
        final(out)@ == old(out)@ + utf16le(units@),
{
    let mut i: usize = 0;
    while i < units.len()
        invariant
            i <= units.len(),
            out@ == old(out)@ + utf16le(units@.take(i as int)),
        decreases units.len() - i,
    {
        let u = units[i];
        out.push((u % 256) as u8);
        out.push((u / 256) as u8);
        assert(units@.take(i + 1).drop_last() == units@.take(i as int));
        i += 1;
    }
    assert(units@.take(units.len() as int) == units@);
}

/// The bytes of the definition file: UTF-16LE with a BOM, matching what
/// `schtasks /query /xml` produces. A single-byte file is rejected.
pub fn task_xml_bytes(xml: &str) -> (bytes: Vec<u8>)
    ensures
        bytes@ == seq![0xffu8, 0xfeu8] + utf16le(utf16(xml@)),
{
    let mut bytes: Vec<u8> = Vec::new();
    bytes.push(0xff);
    bytes.push(0xfe);
    let units = utf16_units(&chars_of(xml));
    push_utf16le(&mut bytes, &units);
    bytes
}

// ---------------------------------------------------------------------------
// The user's SID
// ---------------------------------------------------------------------------

/// The 48-bit big-endian identifier authority of a raw SID.
pub open spec fn sid_authority(sid: Seq<u8>) -> nat {
    sid[2] as nat * 0x100_0000_0000 + sid[3] as nat * 0x1_0000_0000 + sid[4] as nat * 0x100_0000
        + sid[5] as nat * 0x1_0000 + sid[6] as nat * 0x100 + sid[7] as nat
}

/// The little-endian `u32` at byte `at`.
pub open spec fn le_u32(bytes: Seq<u8>, at: int) -> nat {
    bytes[at] as nat + bytes[at + 1] as nat * 0x100 + bytes[at + 2] as nat * 0x1_0000 + bytes[at
        + 3] as nat * 0x100_0000
}

/// `-a` for each of the first `count` sub-authorities `a`.
pub open spec fn sid_sub_authorities(sid: Seq<u8>, count: nat) -> Seq<char>
    decreases count,
{
    if count == 0 {
        seq![]
    } else {
        sid_sub_authorities(sid, (count - 1) as nat) + seq!['-'] + decimal(
            le_u32(sid, 8 + 4 * (count - 1)),
        )
    }
}

/// The SDDL form of a raw SID, or `None` when the bytes are too short for the
/// sub-authorities they announce.
pub open spec fn sid_text(sid: Seq<u8>) -> Option<Seq<char>> {
    if sid.len() < 8 || sid.len() < 8 + 4 * sid[1] {
        None
    } else {
        Some(
            seq!['S', '-'] + decimal(sid[0] as nat) + seq!['-'] + decimal(sid_authority(sid))
                + sid_sub_authorities(sid, sid[1] as nat),
        )
    }
}

/// Format a raw `SID` structure as its SDDL string (`S-1-5-21-…`).
///
/// Layout is fixed by the platform: revision, sub-authority count, a 6-byte
/// big-endian identifier authority, then that many little-endian `u32`
/// sub-authorities.
pub fn sid_to_string(sid: &[u8]) -> (s: Option<String>)
    ensures
        s matches Some(t) ==> sid_text(sid@) == Some(t@),
        s is None ==> sid_text(sid@) is None,
{
    if sid.len() < 8 {
        return None;
    }
    let revision = sid[0];
    let count = sid[1] as usize;
    if sid.len() < 8 + count * 4 {
        return None;
    }
    let mut authority: u64 = 0;
    let mut b: usize = 2;
    while b < 8
        invariant
            2 <= b <= 8,
            sid@.len() >= 8,
            authority as nat == partial_authority(sid@, b as nat),
        decreases 8 - b,
    {
        proof {
            lemma_partial_authority_bound(sid@, b as nat);
            reveal_with_fuel(pow256, 7);
            assert(pow256((b - 2) as nat) <= 0x100_0000_0000);
        }
        authority = authority * 256 + sid[b] as u64;
        b += 1;
    }
    let mut out = String::from_str("S-");
    push_decimal(&mut out, revision as u64);
    push_char(&mut out, '-');
    push_decimal(&mut out, authority);
    let ghost head = out@;
    let mut i: usize = 0;
    while i < count
        invariant
            i <= count,
            count == sid@[1],
            sid@.len() >= 8 + count * 4,
            out@ == head + sid_sub_authorities(sid@, i as nat),
        decreases count - i,
    {
        let base = 8 + i * 4;
        let word: u64 = sid[base] as u64 + sid[base + 1] as u64 * 0x100 + sid[base + 2] as u64
            * 0x1_0000 + sid[base + 3] as u64 * 0x100_0000;
        push_char(&mut out, '-');
        push_decimal(&mut out, word);
        assert(word as nat == le_u32(sid@, 8 + 4 * i));
        i += 1;
    }
    proof {
        reveal_strlit("S-");
        assert("S-"@ == seq!['S', '-']);
        reveal_with_fuel(partial_authority, 7);
        assert(authority as nat == sid_authority(sid@));
    }
    Some(out)
}

/// The authority read from bytes `2..b`.
pub open spec fn partial_authority(sid: Seq<u8>, b: nat) -> nat
    decreases b,
{
    if b <= 2 {
        0
    } else {
        partial_authority(sid, (b - 1) as nat) * 256 + sid[b - 1] as nat
    }
}

proof fn lemma_partial_authority_bound(sid: Seq<u8>, b: nat)
    requires
        2 <= b <= 8,
        sid.len() >= 8,
    ensures
        partial_authority(sid, b) < pow256((b - 2) as nat),
    decreases b,
{
    if b > 2 {
        lemma_partial_authority_bound(sid, (b - 1) as nat);
        let p = partial_authority(sid, (b - 1) as nat);
        assert(p * 256 + sid[b - 1] < pow256((b - 3) as nat) * 256) by (nonlinear_arith)
            requires
                p < pow256((b - 3) as nat),
                sid[b - 1] < 256,
        ;
    }
}

/// `256^n`.
pub open spec fn pow256(n: nat) -> nat
    decreases n,
{
    if n == 0 {
        1
    } else {
        pow256((n - 1) as nat) * 256
    }
}

// ---------------------------------------------------------------------------
// Creating and removing the task
// ---------------------------------------------------------------------------

/// How a `schtasks` run ended: whether it succeeded, and its exit code when
/// it has one.
#[derive(Debug, Clone, Copy, PartialEq, Eq, Structural)]
pub struct ExitReport {
    pub success: bool,
    pub code: Option<i32>,
}

/// The exit code as reported: the code, or `-1` when there is none.
pub open spec fn reported_code(code: Option<i32>) -> int {
    match code {
        Some(c) => c as int,
        None => -1,
    }
}

fn push_exit_code(out: &mut String, code: Option<i32>)
    ensures
        final(out)@ == old(out)@ + signed_decimal(reported_code(code)),
{
    let c: i32 = match code {
        Some(c) => c,
        None => -1,
    };
    push_signed_decimal(out, c as i64);
}

/// What is needed to create the task: the path it launches and the bytes of
/// its definition file.
pub struct InstallPlan {
    pub exe: String,
    pub definition: Vec<u8>,
}

/// Prepare the task for this executable and user, or say which of the two
/// could not be determined.
pub fn install_plan(exe: Option<String>, sid: Option<String>) -> (r: Result<InstallPlan, String>)
    ensures
        match (exe, sid) {
            (None, _) => r matches Err(e) && e@ == "无法确定程序自身路径"@,
            (Some(_), None) => r matches Err(e) && e@ == "无法获取当前用户 SID"@,
            (Some(x), Some(s)) => r matches Ok(p) && p.exe@ == x@ && p.definition@ == seq![
                0xffu8,
                0xfeu8,
            ] + utf16le(utf16(task_definition(x@, s@))),
        },
{
    let exe = match exe {
        Some(e) => e,
        None => return Err(String::from_str("无法确定程序自身路径")),
    };
    let sid = match sid {
        Some(s) => s,
        None => return Err(String::from_str("无法获取当前用户 SID")),
    };
    let xml = task_xml(exe.as_str(), sid.as_str());
    let definition = task_xml_bytes(xml.as_str());
    Ok(InstallPlan { exe, definition })
}

/// The message for a definition file that could not be written.
pub fn write_failure(detail: &str) -> (m: String)
    ensures
        m@ == "写入任务定义失败: "@ + detail@,
{
    let mut m = String::from_str("写入任务定义失败: ");
    push_str(&mut m, detail);
    m
}

/// The outcome of `schtasks /create`. On `Ok` the caller records the target
/// path, so a failed creation can never leave a record behind.
pub fn install_result(run: Result<ExitReport, String>) -> (r: Result<(), String>)
    ensures
        r is Ok <==> (run matches Ok(rep) && rep.success),
        run matches Ok(rep) ==> (rep.success || (r matches Err(m) && m@
            == "schtasks /create 退出码: "@ + signed_decimal(reported_code(rep.code)))),
        run matches Err(e) ==> (r matches Err(m) && m@ == "无法运行 schtasks: "@ + e@),
{
    match run {
        Ok(rep) => {
            if rep.success {
                Ok(())
            } else {
                let mut m = String::from_str("schtasks /create 退出码: ");
                push_exit_code(&mut m, rep.code);
                Err(m)
            }
        },
        Err(e) => {
            let mut m = String::from_str("无法运行 schtasks: ");
            push_str(&mut m, e.as_str());
            Err(m)
        },
    }
}

/// The outcome of `schtasks /delete` (removing the task disables autostart).
/// On `Ok` the caller clears the recorded target: only once the task is really
/// gone, since a refused delete leaves the task ours.
pub fn uninstall(run: Result<ExitReport, String>) -> (r: Result<(), String>)
    ensures
        r is Ok <==> (run matches Ok(rep) && rep.success),
        run matches Ok(rep) ==> (rep.success || (r matches Err(m) && m@
            == "schtasks /delete 退出码: "@ + signed_decimal(reported_code(rep.code)))),
        run matches Err(e) ==> (r matches Err(m) && m@ == e@),
{
    match run {
        Ok(rep) => {
            if rep.success {
                Ok(())
            } else {
                let mut m = String::from_str("schtasks /delete 退出码: ");
                push_exit_code(&mut m, rep.code);
                Err(m)
            }
        },
        Err(e) => Err(e),
    }
}

/// The acknowledgement an elevated helper publishes: `ok`, or `failed:` with
/// the reason.
pub fn helper_result(outcome: &Result<(), String>) -> (text: String)
    ensures
        outcome is Ok ==> text@ == RESULT_OK@,
        outcome matches Err(d) ==> text@ == "failed:"@ + d@,
{
    match outcome {
        Ok(()) => String::from_str(RESULT_OK),
        Err(d) => {
            let mut t = String::from_str("failed:");
            push_str(&mut t, d.as_str());
            t
        },
    }
}

// ---------------------------------------------------------------------------
// The registry values
// ---------------------------------------------------------------------------

/// Record the executable the task was created for; an empty path clears the
/// record once the task is gone.
pub fn record_target(exe: &str) -> (w: StringWrite)
    ensures
        w.subkey@ == APP_SUBKEY@,
        w.value@ == TARGET_VALUE@,
        w.data@ == exe@,
{
    StringWrite { subkey: APP_SUBKEY, value: TARGET_VALUE, data: String::from_str(exe) }
}

/// Publish the outcome of an elevated helper so the app can report it.
///
/// The helper is a separate process that exits immediately, so this registry
/// value is the only channel back: the app polls it and shows a real error
/// instead of a switch that silently flips back.
pub fn publish_result(result: &str) -> (w: StringWrite)
    ensures
        w.subkey@ == APP_SUBKEY@,
        w.value@ == RESULT_VALUE@,
        w.data@ == result@,
{
    StringWrite { subkey: APP_SUBKEY, value: RESULT_VALUE, data: String::from_str(result) }
}

/// The outstanding acknowledgement, if any, from the buffer a read of the
/// result value filled (`byte_len` bytes of type `value_type` reported).
pub fn task_result(buf: &Vec<u16>, byte_len: u32, value_type: u32) -> (r: Option<String>)
    ensures
        match r {
            Some(s) => value_from_buffer(buf@, byte_len as nat, value_type) == Some(s@),
            None => value_from_buffer(buf@, byte_len as nat, value_type) is None,
        },
{
    registry_value(buf, byte_len, value_type)
}

/// Mark that an elevated helper has been launched and has not reported yet.
pub fn mark_pending() -> (w: StringWrite)
    ensures
        w.subkey@ == APP_SUBKEY@,
        w.value@ == RESULT_VALUE@,
        w.data@ == RESULT_PENDING@,
{
    publish_result(RESULT_PENDING)
}

/// True when the process was launched by the scheduled task: `args` (its
/// arguments) hold `-startup`.
pub fn is_startup_launch(args: &Vec<String>) -> (r: bool)
    ensures
        r == crate::commands::has_flag(args@, STARTUP_ARG@),
{
    crate::commands::launch_flags(args).startup
}

/// The helper's acknowledgement reads back: when the registry hands back, as
/// units, the bytes of a write `w` that [`publish_result`] made of `result`
/// (the [`mark_pending`] marker included), the acknowledgement
/// [`task_result`] reports is `result` — nothing for an empty one. `result`
/// must not end in NUL and must fit in the buffer; `pending` and `ok` do.
pub proof fn acknowledgement_reads_back(w: StringWrite, result: Seq<char>, buf: Seq<u16>)
    requires
        w.subkey@ == APP_SUBKEY@,
        w.value@ == RESULT_VALUE@,
        w.data@ == result,
        result.len() == 0 || result.last() != '\0',
        buf.len() == MAX_VALUE_UNITS,
        wide_units(result).len() <= buf.len(),
        buf.take(wide_units(w.data@).len() as int) == units_of_le_bytes(
            utf16le(wide_units(w.data@)),
        ),
    ensures
        value_from_buffer(buf, utf16le(wide_units(w.data@)).len(), REG_SZ) == read_back(result),
        read_back(RESULT_PENDING@) == Some(RESULT_PENDING@),
        read_back(RESULT_OK@) == Some(RESULT_OK@),
        RESULT_PENDING@.last() != '\0' && RESULT_OK@.last() != '\0',
{
    read_gives_back_written(result, buf);
    reveal_strlit("pending");
    reveal_strlit("ok");
}

} // verus!
