use mem_reduct::config::{languages, Config};
use mem_reduct::installer_lang::{
    apply_first_run_language, installer_language, language_for_lcid, lcids,
};

#[test]
fn unknown_lcid_maps_to_nothing() {
    assert_eq!(language_for_lcid(0), None);
    assert_eq!(language_for_lcid(9999), None);
    assert_eq!(language_for_lcid(1032), None);
}

#[test]
fn known_lcids_resolve() {
    assert_eq!(language_for_lcid(2052), Some("zh-CN"));
    assert_eq!(language_for_lcid(1031), Some("de-DE"));
    assert_eq!(language_for_lcid(1041), Some("ja-JP"));
    assert_eq!(language_for_lcid(1066), Some("vi-VN"));
}

#[test]
fn regional_variants_collapse_onto_a_shipped_bundle() {
    assert_eq!(language_for_lcid(2057), Some("en-US"));
    assert_eq!(language_for_lcid(3081), Some("en-US"));
    assert_eq!(language_for_lcid(2070), Some("pt-BR"));
    assert_eq!(language_for_lcid(3076), Some("zh-TW"));
    assert_eq!(language_for_lcid(3082), Some("es-ES"));
}

#[test]
fn every_shipped_language_has_an_lcid() {
    let table = lcids();
    for code in languages() {
        assert!(table.iter().any(|(_, c)| *c == code), "no NSIS LCID maps to {code}");
    }
}

#[test]
fn lcid_table_has_no_stale_languages() {
    let shipped = languages();
    for (lcid, code) in lcids() {
        assert!(shipped.contains(&code), "LCID {lcid} maps to {code}, which is not in LANGUAGES");
    }
}

#[test]
fn lcid_table_has_no_duplicate_ids() {
    let mut seen = std::collections::HashSet::new();
    for (lcid, _) in lcids() {
        assert!(seen.insert(lcid), "duplicate LCID {lcid}");
    }
}

#[test]
fn installer_value_is_trimmed_and_parsed() {
    assert_eq!(installer_language(Some(" 1031\n".to_string())), Some("de-DE"));
    assert_eq!(installer_language(Some("+1041".to_string())), Some("ja-JP"));
    assert_eq!(installer_language(Some("German".to_string())), None);
    assert_eq!(installer_language(Some("1032".to_string())), None);
    assert_eq!(installer_language(None), None);
}

#[test]
fn first_run_language_changes_only_when_different() {
    let mut c = Config::default();
    assert!(apply_first_run_language(&mut c, Some("1031".to_string())));
    assert_eq!(c.language, "de-DE");
    assert!(!apply_first_run_language(&mut c, Some("1031".to_string())));
    assert!(!apply_first_run_language(&mut c, None));
    assert_eq!(c.language, "de-DE");
    let mut d = Config::default();
    assert!(!apply_first_run_language(&mut d, Some("2052".to_string())));
    assert_eq!(d.language, "zh-CN");
}
