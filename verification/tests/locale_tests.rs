use ctrl_panel::locale_provider::{LanguageRegionEntry, LocaleError, LocaleProvider};
use ctrl_panel::path::path_join;

#[test]
fn path_join_resolves_parent_and_current() {
    assert_eq!(LocaleProvider::path_join("/etc", "../usr/share/zoneinfo/Europe/Helsinki"), "/usr/share/zoneinfo/Europe/Helsinki");
    assert_eq!(LocaleProvider::path_join("/a/b", "./c"), "/a/b/c");
    assert_eq!(LocaleProvider::path_join("/", ".."), "/");
    assert_eq!(path_join("/etc", "/etc/zoneinfo/UTC"), "/etc/zoneinfo/UTC");
}

#[test]
fn path_join_relative_base_can_empty() {
    assert_eq!(LocaleProvider::path_join("a", "../.."), "");
    assert_eq!(LocaleProvider::path_join("a/b", "../c"), "a/c");
}

#[test]
fn current_timezone_from_link() {
    assert_eq!(LocaleProvider::get_current_timezone("zoneinfo/Europe/Helsinki"), Ok(String::from("Europe/Helsinki")));
    assert_eq!(LocaleProvider::get_current_timezone("/etc/zoneinfo/UTC"), Ok(String::from("UTC")));
    assert_eq!(
        LocaleProvider::get_current_timezone("../usr/share/zoneinfo/Europe/Helsinki"),
        Err(LocaleError::NotInZoneinfo)
    );
}

#[test]
fn current_locale_normalizes_charset() {
    assert_eq!(LocaleProvider::get_current_locale("LANG=en_US.UTF-8\n"), Ok(String::from("en_US.utf8")));
    assert_eq!(
        LocaleProvider::get_current_locale("LC_ALL=C\nLANG=fi_FI.ISO-8859-1\nLANG=de_DE.UTF-8"),
        Ok(String::from("fi_FI.iso88591"))
    );
    assert_eq!(LocaleProvider::get_current_locale("LANG=C"), Ok(String::from("C")));
}

#[test]
fn current_locale_missing_lang() {
    assert_eq!(LocaleProvider::get_current_locale(""), Err(LocaleError::LangNotFound));
    assert_eq!(LocaleProvider::get_current_locale("LANG = en_US.UTF-8"), Err(LocaleError::LangNotFound));
}

#[test]
fn timezone_display_replaces_underscores() {
    assert_eq!(LocaleProvider::get_timezone_display("America/Argentina/Buenos_Aires"), "America/Argentina/Buenos Aires");
    assert_eq!(LocaleProvider::get_timezone_display("UTC"), "UTC");
}

#[test]
fn timezones_one_per_line() {
    let t = LocaleProvider::get_timezones("Europe/Helsinki\nAsia/Abu_Dhabi\n");
    assert_eq!(t.len(), 2);
    assert_eq!(t[0].code, "Europe/Helsinki");
    assert_eq!(t[1].code, "Asia/Abu_Dhabi");
    assert_eq!(t[1].display, "Asia/Abu Dhabi");
}

const LOCALE_VA: &str = "locale: en_US.utf8      archive: /usr/lib/locale/locale-archive
-------------------------------------------------------------------------------
    title | English locale for the USA
   source | Free Software Foundation, Inc.
 language | English
territory | United States
  codeset | UTF-8

locale: C.utf8          directory: /usr/lib/locale/C.utf8
-------------------------------------------------------------------------------
    title | C locale
 language | C
  codeset | UTF-8

locale: fi_FI.utf8      archive: /usr/lib/locale/locale-archive
 language | Finnish

locale: xx_YY.utf8      archive: /usr/lib/locale/locale-archive
";

#[test]
fn locales_from_locale_va() {
    let l = LocaleProvider::get_locales(LOCALE_VA);
    let pairs: Vec<(String, String)> = l.into_iter().map(|e| (e.code, e.display)).collect();
    assert_eq!(
        pairs,
        vec![
            (String::from("en_US.utf8"), String::from("English (United States)")),
            (String::from("fi_FI.utf8"), String::from("Finnish")),
            (String::from("xx_YY.utf8"), String::from("xx_YY.utf8")),
        ]
    );
}

#[test]
fn locales_of_empty_output() {
    assert!(LocaleProvider::get_locales("").is_empty());
}

#[test]
fn timezone_locale_info_defaults() {
    let d = LocaleProvider::get_timezone_locale_info(None, None, None, None);
    assert_eq!(d.current_language.as_deref(), Some("en_US.utf8"));
    assert_eq!(d.current_timezone.as_deref(), Some("UTC"));
    assert_eq!(d.languages.len(), 2);
    assert_eq!(d.languages[0].code, "ar_AE.utf8");
    assert_eq!(d.languages[0].display, "Arabic (UAE)");
    assert_eq!(d.languages[1].display, "English (United States)");
    assert_eq!(d.timezones[1].code, "Asia/Abu_Dhabi");
    assert_eq!(d.timezones[1].display, "Asia/Abu Dhabi");
}

#[test]
fn timezone_locale_info_keeps_read_lists() {
    let langs = vec![LanguageRegionEntry { code: String::from("fi_FI.utf8"), display: String::from("Finnish") }];
    let d = LocaleProvider::get_timezone_locale_info(None, Some(langs), Some(String::from("Europe/Helsinki")), Some(Vec::new()));
    assert_eq!(d.current_language.as_deref(), Some("en_US.utf8"));
    assert_eq!(d.languages.len(), 1);
    assert_eq!(d.current_timezone.as_deref(), Some("Europe/Helsinki"));
    assert!(d.timezones.is_empty());
}

#[test]
fn index_of_entry_code() {
    let d = LocaleProvider::get_timezone_locale_info(None, None, None, None);
    assert_eq!(LocaleProvider::index_of(&d.languages, Some("en_US.utf8")), Some(1));
    assert_eq!(LocaleProvider::index_of(&d.languages, Some("de_DE.utf8")), None);
    assert_eq!(LocaleProvider::index_of(&d.languages, None), None);
}

#[test]
fn absolute_path_replaces_base() {
    assert_eq!(path_join("/a/b", "/c/../d"), "/d");
    assert_eq!(path_join("", "/c/../d"), "/d");
    assert_eq!(path_join("x/y", "/etc/./zoneinfo"), "/etc/zoneinfo");
}

#[test]
fn joined_path_has_no_steps_up() {
    let p = path_join("/a", "../../b/./c/..");
    assert_eq!(p, "/b");
    assert!(!p.split('/').any(|c| c == ".." || c == "."));
}

#[test]
fn locales_from_bytes() {
    let l = LocaleProvider::get_locales_from_bytes(LOCALE_VA.as_bytes().to_vec()).unwrap();
    assert_eq!(l.len(), 3);
    assert_eq!(l[0].display, "English (United States)");
    assert!(matches!(LocaleProvider::get_locales_from_bytes(vec![b'l', 0xff, b'\n']), Err(LocaleError::InvalidUtf8)));
}

#[test]
fn timezones_from_bytes() {
    let t = LocaleProvider::get_timezones_from_bytes(b"Europe/Helsinki\n".to_vec()).unwrap();
    assert_eq!(t.len(), 1);
    assert_eq!(t[0].code, "Europe/Helsinki");
    assert!(matches!(LocaleProvider::get_timezones_from_bytes(vec![0xc3]), Err(LocaleError::InvalidUtf8)));
}

#[test]
fn joined_path_keeps_root_only_from_inputs() {
    assert!(path_join("/a", "../..").starts_with('/'));
    assert_eq!(path_join("/a", "../.."), "/");
    assert_eq!(path_join("a//b", "c/"), "a/b/c");
    assert!(!path_join("a", "..").starts_with('/'));
    assert!(path_join("a", "/b").starts_with('/'));
    assert_eq!(path_join("a", "/b"), path_join("/", "/b"));
}

#[test]
fn joining_again_changes_nothing() {
    for (b, r) in [("/x/./y//", "../z/"), ("p/q", "../../.."), ("", ""), ("/", "a/b/../c")] {
        let once = path_join(b, r);
        assert_eq!(path_join(&once, ""), once);
    }
}
