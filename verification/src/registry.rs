//! The `HKCU` string values this application owns: the key they live under,
//! the bytes a `REG_SZ` write sends, and how the buffer a read fills is turned
//! back into a string.
//!
//! Two modules use them: `installer_lang` reads the language the NSIS
//! installer recorded, and `autostart` publishes the outcome of the elevated
//! helper back to the app.

use vstd::prelude::*;
use crate::autostart::{push_utf16le, utf16le};
use crate::text::{
    chars_of, decode_utf16_lossy, decode_utf16_prefix, lemma_decode_utf16, string_of, utf16,
    utf16_units,
};

verus! {

/// The `HKCU` subkey this application owns.
///
/// The NSIS installer builds it as `Software\<manufacturer>\<product_name>`,
/// and `manufacturer` falls back to the second segment of the bundle
/// identifier — hence `memreduct`.
pub const APP_SUBKEY: &'static str = "Software\\memreduct\\Mem Reduct";

/// Largest `REG_SZ` payload a read returns, in UTF-16 units.
///
/// Every value stored is a language id, a short status word or a diagnostic
/// message; 512 units is far beyond any of them.
pub const MAX_VALUE_UNITS: usize = 512;

/// The NUL-terminated UTF-16 form of `s`.
pub open spec fn wide_units(s: Seq<char>) -> Seq<u16> {
    utf16(s).push(0u16)
}

/// NUL-terminated UTF-16 copy of `s`, for the `W` registry entry points.
pub fn wide(s: &str) -> (w: Vec<u16>)
    ensures
        w@ == wide_units(s@),
{
    let mut w = utf16_units(&chars_of(s));
    w.push(0);
    w
}

/// The data of a `REG_SZ` write of `data`: the UTF-16 string plus its
/// terminating NUL, as little-endian bytes.
pub fn reg_sz_bytes(data: &str) -> (bytes: Vec<u8>)
    ensures
        bytes@ == utf16le(wide_units(data@)),
{
    let units = wide(data);
    let mut bytes: Vec<u8> = Vec::new();
    push_utf16le(&mut bytes, &units);
    assert(bytes@ =~= utf16le(units@));
    bytes
}

/// A `REG_SZ` write of `data` to the value `value` of `HKCU\<subkey>`, for
/// the caller to carry out (creating the key when it does not exist yet).
pub struct StringWrite {
    pub subkey: &'static str,
    pub value: &'static str,
    pub data: String,
}

impl StringWrite {
    /// The bytes the write sends.
    pub fn bytes(&self) -> (b: Vec<u8>)
        ensures
            b@ == utf16le(wide_units(self.data@)),
    {
        reg_sz_bytes(self.data.as_str())
    }
}

/// `s` without its trailing NUL characters.
pub open spec fn trim_nuls(s: Seq<char>) -> Seq<char>
    decreases s.len(),
{
    if s.len() > 0 && s.last() == '\0' {
        trim_nuls(s.drop_last())
    } else {
        s
    }
}

/// `REG_SZ`: the type of a string value.
pub const REG_SZ: u32 = 1;

/// The string a read reports, given the type `value_type` of the value and
/// the `byte_len` bytes the registry wrote into `buf`: a value that is not a
/// string is absent; otherwise the count is clamped to the buffer, the units
/// are decoded (unpaired surrogates becoming U+FFFD), trailing NULs are
/// dropped, and an empty result counts as absent.
pub open spec fn value_from_buffer(buf: Seq<u16>, byte_len: nat, value_type: u32) -> Option<
    Seq<char>,
> {
    let units = if byte_len / 2 < buf.len() {
        byte_len / 2
    } else {
        buf.len()
    };
    let text = trim_nuls(decode_utf16_lossy(buf.take(units as int)));
    if value_type != REG_SZ || text.len() == 0 {
        None
    } else {
        Some(text)
    }
}

proof fn lemma_trim_nuls_take(s: Seq<char>, k: int)
    requires
        0 <= k <= s.len(),
        forall|j: int| k <= j < s.len() ==> s[j] == '\0',
    ensures
        trim_nuls(s) == trim_nuls(s.take(k)),
    decreases s.len() - k,
{
    if k < s.len() {
        assert(s.drop_last() == s.take(s.len() - 1));
        lemma_trim_nuls_take(s.drop_last(), k);
        assert(s.drop_last().take(k) == s.take(k));
    } else {
        assert(s.take(k) == s);
    }
}

/// The value a read returns: `value_type` is the type and `byte_len` the
/// byte count the query reported for the data it wrote into `buf`. Anything
/// but a string value reads as absent. A value need not be NUL-terminated, so
/// the count is clamped to the buffer rather than trusted.
pub fn registry_value(buf: &Vec<u16>, byte_len: u32, value_type: u32) -> (r: Option<String>)
    ensures
        value_type != REG_SZ ==> r is None,
        match r {
            Some(s) => value_from_buffer(buf@, byte_len as nat, value_type) == Some(s@),
            None => value_from_buffer(buf@, byte_len as nat, value_type) is None,
        },
{
    if value_type != REG_SZ {
        return None;
    }
    let half = (byte_len / 2) as usize;
    let units = if half < buf.len() {
        half
    } else {
        buf.len()
    };
    let decoded = decode_utf16_prefix(buf, units);
    let mut k: usize = decoded.len();
    while k > 0 && decoded[k - 1] == '\0'
        invariant
            k <= decoded.len(),
            forall|j: int| k <= j < decoded.len() ==> decoded@[j] == '\0',
        decreases k,
    {
        k -= 1;
    }
    proof {
        lemma_trim_nuls_take(decoded@, k as int);
        let t = decoded@.take(k as int);
        if k > 0 {
            assert(t.last() == decoded@[k - 1]);
        }
        assert(trim_nuls(t) == t);
    }
    if k == 0 {
        return None;
    }
    let mut text: Vec<char> = Vec::new();
    let mut i: usize = 0;
    while i < k
        invariant
            i <= k <= decoded.len(),
            text@ == decoded@.take(i as int),
        decreases k - i,
    {
        text.push(decoded[i]);
        i += 1;
    }
    Some(string_of(&text))
}

/// The little-endian `u16` units of `bytes`, two bytes each (a last odd byte
/// is not a unit).
pub open spec fn units_of_le_bytes(bytes: Seq<u8>) -> Seq<u16>
    decreases bytes.len(),
{
    if bytes.len() < 2 {
        seq![]
    } else {
        units_of_le_bytes(bytes.take(bytes.len() - 2)).push(
            (bytes[bytes.len() - 2] as int + bytes[bytes.len() - 1] as int * 256) as u16,
        )
    }
}

/// Reading little-endian bytes back as units gives the units written.
pub proof fn lemma_le_bytes_read_back(units: Seq<u16>)
    ensures
        utf16le(units).len() == 2 * units.len(),
        units_of_le_bytes(utf16le(units)) == units,
    decreases units.len(),
{
    if units.len() > 0 {
        let dl = units.drop_last();
        lemma_le_bytes_read_back(dl);
        let b = utf16le(units);
        let x = units.last();
        assert(b == utf16le(dl) + seq![(x % 256) as u8, (x / 256) as u8]);
        assert(b.take(b.len() - 2) =~= utf16le(dl));
        assert(b[b.len() - 2] == (x % 256) as u8);
        assert(b[b.len() - 1] == (x / 256) as u8);
        assert((x % 256) + (x / 256) * 256 == x);
        assert(units =~= dl.push(x));
    } else {
        assert(utf16le(units) == Seq::<u8>::empty());
    }
}

/// What a read reports for the `REG_SZ` value written for `data`.
pub open spec fn read_back(data: Seq<char>) -> Option<Seq<char>> {
    if data.len() == 0 {
        None
    } else {
        Some(data)
    }
}

/// A read gives back what a write wrote: when the registry hands back, as
/// units, the bytes [`reg_sz_bytes`] sent for `data` (its UTF-16 units and a
/// NUL, little-endian), a read of the `REG_SZ` value reports `data` — or
/// nothing when `data` is empty, an empty value counting as absent. `data`
/// must not end in NUL (trailing NULs are trimmed) and must fit in the
/// buffer.
pub proof fn read_gives_back_written(data: Seq<char>, buf: Seq<u16>)
    requires
        data.len() == 0 || data.last() != '\0',
        buf.len() == MAX_VALUE_UNITS,
        wide_units(data).len() <= buf.len(),
        buf.take(wide_units(data).len() as int) == units_of_le_bytes(utf16le(wide_units(data))),
    ensures
        value_from_buffer(buf, utf16le(wide_units(data)).len(), REG_SZ) == read_back(data),
{
    let w = wide_units(data);
    lemma_le_bytes_read_back(w);
    assert(w =~= utf16(data) + seq![0u16]);
    lemma_decode_utf16(data, seq![0u16]);
    let z = seq![0u16];
    assert(z.skip(1).len() == 0);
    assert(decode_utf16_lossy(z) == seq![(0u16) as char] + decode_utf16_lossy(z.skip(1)));
    assert(decode_utf16_lossy(z.skip(1)) == Seq::<char>::empty());
    assert((0u16) as char == '\0');
    let d = data + decode_utf16_lossy(z);
    assert(d =~= data.push('\0'));
    assert(d.drop_last() =~= data);
    assert((2 * w.len()) / 2 == w.len());
    assert(w.len() <= buf.len());
    assert(buf.take(w.len() as int) == w);
    assert(decode_utf16_lossy(w) == d);
    assert(trim_nuls(d) == trim_nuls(d.drop_last()));
    if data.len() > 0 {
        assert(trim_nuls(data) == data);
    } else {
        assert(trim_nuls(data) == data);
    }
    assert(trim_nuls(d) == data);
}

} // verus!
