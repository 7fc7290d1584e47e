//! Single-instance guard decisions.
//!
//! A named mutex keeps one interactive instance alive. The subtlety is the
//! elevation hand-over: a manual cleanup while un-elevated relaunches the whole
//! process through the UAC `runas` verb and exits the outgoing one, so the
//! replacement can start *before* the old instance is gone. That case is
//! flagged with [`TAKEOVER_ARG`] and waits for the hand-over instead of bailing
//! out and leaving the user with no window at all.

use vstd::prelude::*;
use crate::text::{chars_eq_ignore_ascii_case, chars_of, decode_utf16_lossy, decode_utf16_prefix, eq_ignore_ascii_case, folded, string_of, to_lowercase};

verus! {

/// Argument added by the elevated relaunch so the replacement instance knows it
/// is taking over from an instance that is about to exit.
pub const TAKEOVER_ARG: &'static str = "-takeover";

/// Per-session mutex (`Local\`) so two users logged into the same machine do
/// not block each other.
pub const MUTEX_NAME: &'static str = "Local\\MemReduct.App.SingleInstance";

/// How long a hand-over waits for the outgoing instance to release the mutex.
/// The outgoing instance exits right after submitting the UAC request, so in
/// practice the wait returns in milliseconds.
pub const HANDOVER_TIMEOUT_MS: u32 = 15_000;

/// `WAIT_OBJECT_0`.
pub const WAIT_OBJECT_0: u32 = 0;
/// `WAIT_ABANDONED`.
pub const WAIT_ABANDONED: u32 = 0x80;
/// `WAIT_TIMEOUT`.
pub const WAIT_TIMEOUT: u32 = 0x102;

/// How long to wait for the mutex: through a hand-over when `allow_takeover`,
/// not at all otherwise.
pub fn wait_timeout(allow_takeover: bool) -> (ms: u32)
    ensures
        ms == (if allow_takeover {
            HANDOVER_TIMEOUT_MS
        } else {
            0
        }),
{
    if allow_takeover {
        HANDOVER_TIMEOUT_MS
    } else {
        0
    }
}

/// What became of the attempt to become the primary instance.
#[derive(Debug, Clone, Copy, PartialEq, Eq, Structural)]
pub enum Ownership {
    /// This process owns the mutex; keep it for the lifetime of the app.
    Owned,
    /// No guard could be had (the mutex could not be created or waited on):
    /// run unsynchronised rather than lock the user out. The handle, if any,
    /// is closed.
    Unguarded,
    /// Another instance is running; the handle is closed and the caller
    /// returns at once.
    Duplicate,
}

/// The ownership after creating the mutex (`created`) and waiting on it
/// (`wait`, the code `WaitForSingleObject` returned). An abandoned mutex —
/// the previous owner died — is owned now.
pub fn ownership(created: bool, wait: u32) -> (o: Ownership)
    ensures
        o == (if !created {
            Ownership::Unguarded
        } else if wait == WAIT_OBJECT_0 || wait == WAIT_ABANDONED {
            Ownership::Owned
        } else if wait == WAIT_TIMEOUT {
            Ownership::Duplicate
        } else {
            Ownership::Unguarded
        }),
{
    if !created {
        Ownership::Unguarded
    } else if wait == WAIT_OBJECT_0 || wait == WAIT_ABANDONED {
        Ownership::Owned
    } else if wait == WAIT_TIMEOUT {
        Ownership::Duplicate
    } else {
        Ownership::Unguarded
    }
}

/// Keeps this process the only interactive instance, holding the mutex
/// handle `H` while it is owned.
pub struct InstanceGuard<H> {
    mutex: Option<H>,
}

impl<H> InstanceGuard<H> {
    /// Whether the guard still holds the mutex.
    pub closed spec fn holds(&self) -> bool {
        self.mutex is Some
    }

    /// A guard that owns `mutex`.
    pub fn owning(mutex: H) -> (g: Self)
        ensures
            g.holds(),
    {
        InstanceGuard { mutex: Some(mutex) }
    }

    /// A guard that owns nothing — used when the mutex cannot be had at all,
    /// in which case the app fails open and runs unsynchronised.
    pub fn unavailable() -> (g: Self)
        ensures
            !g.holds(),
    {
        InstanceGuard { mutex: None }
    }

    /// Whether the guard still holds the mutex.
    pub fn is_held(&self) -> (r: bool)
        ensures
            r == self.holds(),
    {
        self.mutex.is_some()
    }

    /// Give the mutex up: the handle to release and close, the first time
    /// only.
    pub fn release(&mut self) -> (h: Option<H>)
        ensures
            h is Some == old(self).holds(),
            !final(self).holds(),
    {
        let mut out: Option<H> = None;
        std::mem::swap(&mut out, &mut self.mutex);
        out
    }
}

/// Releasing is idempotent: once released, a guard hands out no handle again,
/// so the mutex is released and closed at most once.
pub proof fn release_is_idempotent<H>(g1: InstanceGuard<H>, g2: InstanceGuard<H>, second: Option<H>)
    requires
        !g1.holds(),
        second is Some == g1.holds(),
        !g2.holds(),
    ensures
        second is None,
{
}

/// The lower-cased image path a process query returned: the first `len`
/// units of `buf` (clamped to the buffer), decoded.
pub open spec fn image_path_spec(buf: Seq<u16>, len: nat) -> Seq<char> {
    folded(decode_utf16_lossy(buf.take(if len < buf.len() { len as int } else { buf.len() as int })))
}

/// The image path of a process, lower-cased, from the buffer
/// `QueryFullProcessImageNameW` filled (`len` units, without the NUL).
pub fn image_path(buf: &Vec<u16>, len: u32) -> (p: String)
    ensures
        p@ == image_path_spec(buf@, len as nat),
{
    let n: usize = if (len as usize) < buf.len() {
        len as usize
    } else {
        buf.len()
    };
    let chars = decode_utf16_prefix(buf, n);
    let text = string_of(&chars);
    to_lowercase(text.as_str())
}

/// Whether a top-level window belongs to the already-running instance: it is
/// visible, has a title (tooltips, the tray helper and message-only windows
/// have none), is owned by another process than this one (`self_pid`), and
/// that process runs the same executable (`exe`, lower-cased), compared
/// ignoring ASCII case. Matching on the path rather than the window class
/// keeps other WebView-based apps out.
pub open spec fn peer_window_spec(
    visible: bool,
    title_len: i32,
    pid: u32,
    self_pid: u32,
    image: Option<Seq<char>>,
    exe: Seq<char>,
) -> bool {
    &&& visible
    &&& title_len != 0
    &&& pid != 0
    &&& pid != self_pid
    &&& image matches Some(path) && eq_ignore_ascii_case(path, exe)
}

/// Whether the window described is the running instance's window.
pub fn is_peer_window(
    visible: bool,
    title_len: i32,
    pid: u32,
    self_pid: u32,
    image: Option<String>,
    exe: &str,
) -> (r: bool)
    ensures
        r == peer_window_spec(
            visible,
            title_len,
            pid,
            self_pid,
            match image {
                Some(s) => Some(s@),
                None => None,
            },
            exe@,
        ),
{
    if !visible || title_len == 0 || pid == 0 || pid == self_pid {
        return false;
    }
    match image {
        None => false,
        Some(path) => chars_eq_ignore_ascii_case(&chars_of(path.as_str()), &chars_of(exe)),
    }
}

} // verus!
