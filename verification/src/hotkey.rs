//! Global hotkey encoding and the decisions around registering it.
//!
//! A hotkey is stored as `(mods << 16) | vk`. Registration always adds
//! `MOD_NOREPEAT` (holding the combination down must not clean in a tight
//! loop), but that bit is never part of the stored encoding.

use vstd::prelude::*;

verus! {

pub const MOD_ALT_VAL: u32 = 0x0001;
pub const MOD_CONTROL_VAL: u32 = 0x0002;
pub const MOD_SHIFT_VAL: u32 = 0x0004;
pub const MOD_WIN_VAL: u32 = 0x0008;

/// Why a global hotkey could not be registered.
#[derive(Debug, Clone, Copy, PartialEq, Eq, Structural)]
pub enum HotkeyError {
    /// `RegisterHotKey` failed — almost always because another application
    /// already owns the combination.
    AlreadyInUse,
    /// The stored combination has no virtual key, so it can never be registered.
    InvalidCombination,
}

impl HotkeyError {
    /// The message shown for the error.
    pub fn message(&self) -> (m: &'static str)
        ensures
            m@ == (match *self {
                HotkeyError::AlreadyInUse => "hotkey already in use"@,
                HotkeyError::InvalidCombination => "invalid hotkey combination"@,
            }),
    {
        match self {
            HotkeyError::AlreadyInUse => "hotkey already in use",
            HotkeyError::InvalidCombination => "invalid hotkey combination",
        }
    }
}

/// Decode a stored hotkey value `(mods << 16) | vk` into (modifiers, vk).
pub fn decode(value: u32) -> (r: (u32, u32))
    ensures
        r.0 == value / 0x10000,
        r.1 == value % 0x10000,
{
    let r = ((value >> 16) & 0xffff, value & 0xffff);
    assert((value >> 16) & 0xffff == value / 0x10000) by (bit_vector);
    assert(value & 0xffff == value % 0x10000) by (bit_vector);
    r
}

/// Encode modifiers + virtual key into a single u32.
pub fn encode(mods: u32, vk: u32) -> (value: u32)
    ensures
        value == (mods % 0x10000) * 0x10000 + vk % 0x10000,
{
    let value = ((mods & 0xffff) << 16) | (vk & 0xffff);
    assert(((mods & 0xffff) << 16) | (vk & 0xffff) == (mods % 0x10000) * 0x10000 + vk % 0x10000)
        by (bit_vector);
    value
}

/// Decoding an encoded hotkey gives back the modifiers and key (each kept to
/// its 16 bits), and encoding a decoded value gives back the value.
pub proof fn encode_decode_roundtrip(mods: u32, vk: u32, value: u32)
    ensures
        ((mods % 0x10000) * 0x10000 + vk % 0x10000) / 0x10000 == mods % 0x10000,
        ((mods % 0x10000) * 0x10000 + vk % 0x10000) % 0x10000 == vk % 0x10000,
        ((value / 0x10000) % 0x10000) * 0x10000 + (value % 0x10000) % 0x10000 == value,
{
    let m: int = (mods % 0x10000) as int;
    let v: int = (vk % 0x10000) as int;
    vstd::arithmetic::div_mod::lemma_fundamental_div_mod_converse(m * 0x10000 + v, 0x10000, m, v);
    vstd::arithmetic::div_mod::lemma_fundamental_div_mod(value as int, 0x10000);
    assert(value / 0x10000 < 0x10000);
}

/// The modifier flags a registration asks for.
#[derive(Debug, Clone, Copy, PartialEq, Eq, Structural)]
pub struct RegistrationModifiers {
    pub alt: bool,
    pub control: bool,
    pub shift: bool,
    pub win: bool,
    /// Always set: without it, holding the combination down makes Windows
    /// synthesise a repeat every ~30 ms and the app cleans in a tight loop.
    pub no_repeat: bool,
}

/// What to register for `modifiers` and `key`, or why nothing can be: a
/// combination without a virtual key can never be registered.
pub fn registration(modifiers: u32, key: u32) -> (r: Result<RegistrationModifiers, HotkeyError>)
    ensures
        key == 0 ==> r == Err::<RegistrationModifiers, HotkeyError>(
            HotkeyError::InvalidCombination,
        ),
        key != 0 ==> r == Ok::<RegistrationModifiers, HotkeyError>(
            RegistrationModifiers {
                alt: modifiers & MOD_ALT_VAL != 0,
                control: modifiers & MOD_CONTROL_VAL != 0,
                shift: modifiers & MOD_SHIFT_VAL != 0,
                win: modifiers & MOD_WIN_VAL != 0,
                no_repeat: true,
            },
        ),
{
    if key == 0 {
        return Err(HotkeyError::InvalidCombination);
    }
    Ok(
        RegistrationModifiers {
            alt: modifiers & MOD_ALT_VAL != 0,
            control: modifiers & MOD_CONTROL_VAL != 0,
            shift: modifiers & MOD_SHIFT_VAL != 0,
            win: modifiers & MOD_WIN_VAL != 0,
            no_repeat: true,
        },
    )
}

/// The outcome of starting the listener from what its thread reported: a
/// confirmed registration, else (refused, or no report at all) the
/// combination is taken.
pub fn start_outcome(reported: Option<bool>) -> (r: Result<(), HotkeyError>)
    ensures
        r is Ok <==> reported == Some(true),
        r is Err ==> r == Err::<(), HotkeyError>(HotkeyError::AlreadyInUse),
{
    match reported {
        Some(true) => Ok(()),
        _ => Err(HotkeyError::AlreadyInUse),
    }
}

/// `WM_HOTKEY`.
pub const WM_HOTKEY: u32 = 0x0312;

/// Whether a message pumped by the listener is the press of hotkey `id`.
pub fn fires(message: u32, wparam: usize, id: i32) -> (r: bool)
    ensures
        r == (message == WM_HOTKEY && wparam as i32 == id),
{
    message == WM_HOTKEY && wparam as i32 == id
}

} // verus!
