//! Inherit the language the user picked in the NSIS installer.
//!
//! The installer stores its language id — a Windows LCID in decimal (`1031`
//! for German) — as `HKCU\<app key>\Installer Language`. This module maps that
//! id onto one of the shipped translation bundles, so that a fresh install
//! opens in the language the user chose rather than the one the OS locale
//! implies.

use vstd::prelude::*;
use crate::config::{Config, language_codes};
use crate::cmdline::{parse_u32, parsed_u32};
use crate::text::{chars_of, string_of, trim, trim_chars};

verus! {

/// The registry value name the installer writes its language id to.
pub const REG_VALUE: &'static str = "Installer Language";

/// Windows LCID → shipped language code.
///
/// The ids the installer can produce, plus the common regional variants that
/// collapse onto the same bundle (`en-GB` → `en-US`, `pt-PT` → `pt-BR`).
pub open spec fn lcid_table() -> Seq<(u32, Seq<char>)> {
    seq![
        (2052u32, "zh-CN"@),
        (1028u32, "zh-TW"@),
        (3076u32, "zh-TW"@),
        (5124u32, "zh-TW"@),
        (1033u32, "en-US"@),
        (2057u32, "en-US"@),
        (3081u32, "en-US"@),
        (16393u32, "en-US"@),
        (1041u32, "ja-JP"@),
        (1042u32, "ko-KR"@),
        (1031u32, "de-DE"@),
        (1036u32, "fr-FR"@),
        (1034u32, "es-ES"@),
        (3082u32, "es-ES"@),
        (1046u32, "pt-BR"@),
        (2070u32, "pt-BR"@),
        (1040u32, "it-IT"@),
        (1049u32, "ru-RU"@),
        (1045u32, "pl-PL"@),
        (1055u32, "tr-TR"@),
        (1066u32, "vi-VN"@),
        (1054u32, "th-TH"@),
        (1057u32, "id-ID"@),
    ]
}

/// The views of a table of `(id, code)` pairs.
pub open spec fn table_views(v: Seq<(u32, &str)>) -> Seq<(u32, Seq<char>)> {
    v.map_values(|e: (u32, &str)| (e.0, e.1@))
}

/// Whether `lcid` occurs in the table.
pub open spec fn has_lcid(lcid: u32) -> bool {
    exists|i: int| 0 <= i < lcid_table().len() && #[trigger] lcid_table()[i].0 == lcid
}

/// The bundle `lcid` maps to, if the table lists it.
pub open spec fn lcid_language(lcid: u32) -> Option<Seq<char>> {
    if has_lcid(lcid) {
        Some(
            lcid_table()[choose|i: int|
                0 <= i < lcid_table().len() && #[trigger] lcid_table()[i].0 == lcid].1,
        )
    } else {
        None
    }
}

/// The LCID table, for callers that walk it.
pub fn lcids() -> (v: Vec<(u32, &'static str)>)
    ensures
        table_views(v@) == lcid_table(),
{
    let v = vec![
        (2052u32, "zh-CN"),
        (1028u32, "zh-TW"),
        (3076u32, "zh-TW"),
        (5124u32, "zh-TW"),
        (1033u32, "en-US"),
        (2057u32, "en-US"),
        (3081u32, "en-US"),
        (16393u32, "en-US"),
        (1041u32, "ja-JP"),
        (1042u32, "ko-KR"),
        (1031u32, "de-DE"),
        (1036u32, "fr-FR"),
        (1034u32, "es-ES"),
        (3082u32, "es-ES"),
        (1046u32, "pt-BR"),
        (2070u32, "pt-BR"),
        (1040u32, "it-IT"),
        (1049u32, "ru-RU"),
        (1045u32, "pl-PL"),
        (1055u32, "tr-TR"),
        (1066u32, "vi-VN"),
        (1054u32, "th-TH"),
        (1057u32, "id-ID"),
    ];
    assert(table_views(v@) =~= lcid_table());
    v
}

/// No LCID occurs twice in the table, so each id names one bundle.
pub proof fn lcid_table_has_no_duplicate_ids()
    ensures
        forall|i: int, j: int|
            0 <= i < j < lcid_table().len() ==> #[trigger] lcid_table()[i].0
                != #[trigger] lcid_table()[j].0,
{
}

/// The LCIDs the installer can report and a bundle is shipped for.
pub open spec fn is_listed_lcid(lcid: u32) -> bool {
    ||| lcid == 2052 || lcid == 1028 || lcid == 3076 || lcid == 5124 || lcid == 1033 || lcid == 2057
    ||| lcid == 3081 || lcid == 16393 || lcid == 1041 || lcid == 1042 || lcid == 1031 || lcid == 1036
    ||| lcid == 1034 || lcid == 3082 || lcid == 1046 || lcid == 2070 || lcid == 1040 || lcid == 1049
    ||| lcid == 1045 || lcid == 1055 || lcid == 1066 || lcid == 1054 || lcid == 1057
}

proof fn lemma_lcid_lookup(i: int)
    requires
        0 <= i < lcid_table().len(),
    ensures
        lcid_language(lcid_table()[i].0) == Some(lcid_table()[i].1),
{
    lcid_table_has_no_duplicate_ids();
    let lcid = lcid_table()[i].0;
    assert(has_lcid(lcid));
    let k = choose|k: int| 0 <= k < lcid_table().len() && #[trigger] lcid_table()[k].0 == lcid;
    if k < i {
        assert(lcid_table()[k].0 != lcid_table()[i].0);
    } else if i < k {
        assert(lcid_table()[i].0 != lcid_table()[k].0);
    }
}

/// Each Windows LCID the installer can report resolves to the bundle of the
/// language it denotes: the primary ids of Chinese (Simplified and
/// Traditional), English, Japanese, Korean, German, French, Spanish,
/// Portuguese, Italian, Russian, Polish, Turkish, Vietnamese, Thai and
/// Indonesian, and the regional variants that share a bundle (Hong Kong and
/// Macao Chinese, British, Australian and Indian English, modern-sort Spanish,
/// European Portuguese); every other id resolves to no bundle.
pub proof fn lcids_denote_their_languages()
    ensures
        lcid_language(2052) == Some("zh-CN"@),
        lcid_language(1028) == Some("zh-TW"@),
        lcid_language(3076) == Some("zh-TW"@),
        lcid_language(5124) == Some("zh-TW"@),
        lcid_language(1033) == Some("en-US"@),
        lcid_language(2057) == Some("en-US"@),
        lcid_language(3081) == Some("en-US"@),
        lcid_language(16393) == Some("en-US"@),
        lcid_language(1041) == Some("ja-JP"@),
        lcid_language(1042) == Some("ko-KR"@),
        lcid_language(1031) == Some("de-DE"@),
        lcid_language(1036) == Some("fr-FR"@),
        lcid_language(1034) == Some("es-ES"@),
        lcid_language(3082) == Some("es-ES"@),
        lcid_language(1046) == Some("pt-BR"@),
        lcid_language(2070) == Some("pt-BR"@),
        lcid_language(1040) == Some("it-IT"@),
        lcid_language(1049) == Some("ru-RU"@),
        lcid_language(1045) == Some("pl-PL"@),
        lcid_language(1055) == Some("tr-TR"@),
        lcid_language(1066) == Some("vi-VN"@),
        lcid_language(1054) == Some("th-TH"@),
        lcid_language(1057) == Some("id-ID"@),
        forall|lcid: u32|
            #![trigger lcid_language(lcid)]
            !is_listed_lcid(lcid) ==> lcid_language(lcid) is None,
{
    lemma_lcid_lookup(0);
    lemma_lcid_lookup(1);
    lemma_lcid_lookup(2);
    lemma_lcid_lookup(3);
    lemma_lcid_lookup(4);
    lemma_lcid_lookup(5);
    lemma_lcid_lookup(6);
    lemma_lcid_lookup(7);
    lemma_lcid_lookup(8);
    lemma_lcid_lookup(9);
    lemma_lcid_lookup(10);
    lemma_lcid_lookup(11);
    lemma_lcid_lookup(12);
    lemma_lcid_lookup(13);
    lemma_lcid_lookup(14);
    lemma_lcid_lookup(15);
    lemma_lcid_lookup(16);
    lemma_lcid_lookup(17);
    lemma_lcid_lookup(18);
    lemma_lcid_lookup(19);
    lemma_lcid_lookup(20);
    lemma_lcid_lookup(21);
    lemma_lcid_lookup(22);
    assert forall|lcid: u32|
        #![trigger lcid_language(lcid)]
        !is_listed_lcid(lcid) implies lcid_language(lcid) is None by {
        if has_lcid(lcid) {
            let k = choose|k: int| 0 <= k < lcid_table().len() && #[trigger] lcid_table()[k].0 == lcid;
            assert(lcid_table()[k].0 == lcid);
        }
    }
}

/// Every shipped language can be chosen in the installer: some LCID maps to
/// it.
pub proof fn every_shipped_language_has_an_lcid()
    ensures
        forall|k: int|
            0 <= k < language_codes().len() ==> exists|i: int|
                0 <= i < lcid_table().len() && #[trigger] lcid_table()[i].1
                    == #[trigger] language_codes()[k],
{
    let t = lcid_table();
    let l = language_codes();
    assert(t[0].1 == l[0]);
    assert(t[1].1 == l[1]);
    assert(t[4].1 == l[2]);
    assert(t[8].1 == l[3]);
    assert(t[9].1 == l[4]);
    assert(t[10].1 == l[5]);
    assert(t[11].1 == l[6]);
    assert(t[12].1 == l[7]);
    assert(t[14].1 == l[8]);
    assert(t[16].1 == l[9]);
    assert(t[17].1 == l[10]);
    assert(t[18].1 == l[11]);
    assert(t[19].1 == l[12]);
    assert(t[20].1 == l[13]);
    assert(t[21].1 == l[14]);
    assert(t[22].1 == l[15]);
}

/// Every code in the table is a shipped language, so the installer's choice
/// always survives the config's validation.
pub proof fn lcid_table_has_no_stale_languages()
    ensures
        forall|i: int|
            0 <= i < lcid_table().len() ==> language_codes().contains(
                #[trigger] lcid_table()[i].1,
            ),
{
    let t = lcid_table();
    let l = language_codes();
    assert(l[0] == t[0].1);
    assert(l[1] == t[1].1 && l[1] == t[2].1 && l[1] == t[3].1);
    assert(l[2] == t[4].1 && l[2] == t[5].1 && l[2] == t[6].1 && l[2] == t[7].1);
    assert(l[3] == t[8].1);
    assert(l[4] == t[9].1);
    assert(l[5] == t[10].1);
    assert(l[6] == t[11].1);
    assert(l[7] == t[12].1 && l[7] == t[13].1);
    assert(l[8] == t[14].1 && l[8] == t[15].1);
    assert(l[9] == t[16].1);
    assert(l[10] == t[17].1);
    assert(l[11] == t[18].1);
    assert(l[12] == t[19].1);
    assert(l[13] == t[20].1);
    assert(l[14] == t[21].1);
    assert(l[15] == t[22].1);
}

/// Map an NSIS language id to one of the shipped bundles, or `None` if none
/// is shipped for it.
pub fn language_for_lcid(lcid: u32) -> (r: Option<&'static str>)
    ensures
        r is Some <==> has_lcid(lcid),
        r matches Some(code) ==> lcid_language(lcid) == Some(code@),
{
    let table = lcids();
    let mut i: usize = 0;
    while i < table.len()
        invariant
            i <= table.len(),
            table_views(table@) == lcid_table(),
            forall|j: int| 0 <= j < i ==> #[trigger] lcid_table()[j].0 != lcid,
        decreases table.len() - i,
    {
        let (id, code) = table[i];
        assert(lcid_table()[i as int] == (id, code@));
        if id == lcid {
            proof {
                lcid_table_has_no_duplicate_ids();
                assert(lcid_table()[i as int].0 == lcid);
                assert(has_lcid(lcid));
                let k = choose|k: int|
                    0 <= k < lcid_table().len() && #[trigger] lcid_table()[k].0 == lcid;
                if k != i as int {
                    if k < i {
                        assert(lcid_table()[k].0 != lcid);
                    } else {
                        assert(lcid_table()[i as int].0 != lcid_table()[k].0);
                    }
                }
            }
            return Some(code);
        }
        i += 1;
    }
    None
}

/// The view of an optional string.
pub open spec fn opt_view(raw: Option<String>) -> Option<Seq<char>> {
    match raw {
        Some(s) => Some(s@),
        None => None,
    }
}

/// The bundle named by the installer's recorded value `raw` (as read from the
/// registry; `None` when nothing was recorded): the value, trimmed, parsed as
/// a decimal `u32`, and mapped through the LCID table.
pub open spec fn installer_choice(raw: Option<Seq<char>>) -> Option<Seq<char>> {
    match raw {
        None => None,
        Some(s) => match parsed_u32(trim(s)) {
            None => None,
            Some(id) => lcid_language(id),
        },
    }
}

/// The language the installer recorded, if it recorded one that is shipped.
/// `raw` is the registry value as read (`None` when it is absent or empty).
pub fn installer_language(raw: Option<String>) -> (r: Option<&'static str>)
    ensures
        match r {
            Some(code) => installer_choice(opt_view(raw)) == Some(code@),
            None => installer_choice(opt_view(raw)) is None,
        },
{
    match raw {
        None => None,
        Some(s) => {
            let trimmed = trim_chars(&chars_of(s.as_str()));
            let text = string_of(&trimmed);
            match parse_u32(text.as_str()) {
                None => None,
                Some(id) => language_for_lcid(id),
            }
        },
    }
}

/// Adopt the installer language for a brand-new config. `raw` is the
/// installer's recorded value as read from the registry.
///
/// Called only while no `config.json` exists yet: on every later start the
/// user's in-app choice wins. Returns `true` when `config` changed, so the
/// caller can persist it.
pub fn apply_first_run_language(config: &mut Config, raw: Option<String>) -> (changed: bool)
    ensures
        match installer_choice(opt_view(raw)) {
            Some(code) => {
                &&& changed == (old(config).language@ != code)
                &&& final(config).language@ == code
                &&& *final(config) == (Config { language: final(config).language, ..*old(config) })
            },
            None => !changed && *final(config) == *old(config),
        },
{
    match installer_language(raw) {
        Some(lang) => {
            if !crate::text::str_is(config.language.as_str(), lang) {
                config.language = String::from_str(lang);
                true
            } else {
                false
            }
        },
        None => false,
    }
}

} // verus!
